//! The accessibility knowledge base: closed enumerations for HTML tags,
//! WAI-ARIA roles and `aria-*` properties, with the pure lookup tables the
//! rule engine consults — implicit roles, abstractness, interactivity,
//! required and supported properties, and legal attribute values.

use crate::text::{is_valid_integer, is_valid_number, str_eq};
use vstd::prelude::*;
use vstd::slice::slice_index_get;

verus! {

/// The views of a sequence of string slices.
pub open spec fn list_views(items: Seq<&str>) -> Seq<Seq<char>> {
    items.map_values(|x: &str| x@)
}

/// Membership of `v` among the character sequences `items`.
pub open spec fn in_str_list(items: Seq<Seq<char>>, v: Seq<char>) -> bool {
    exists|i: int| 0 <= i < items.len() && items[i] == v
}

/// A quoted item: `x` wrapped in double quotes.
pub open spec fn quoted(x: Seq<char>) -> Seq<char> {
    "\""@ + x + "\""@
}

/// Quoted items joined by a comma and a space.
pub open spec fn join_quoted(items: Seq<Seq<char>>) -> Seq<char>
    decreases items.len(),
{
    if items.len() == 0 {
        Seq::empty()
    } else if items.len() == 1 {
        quoted(items[0])
    } else {
        join_quoted(items.drop_last()) + ", "@ + quoted(items.last())
    }
}


/// Types of values an ARIA attribute can accept.
#[derive(Clone, Copy, Debug)]
pub enum AriaValueType {
    /// "true" or "false"
    Bool,
    /// "true", "false", or "mixed"
    TristateBool,
    /// "true", "false", or "undefined"
    BoolOrUndefined,
    /// One of a fixed set of string values
    Enum(&'static [&'static str]),
    /// An integer number
    Integer,
    /// A decimal number
    Number,
    /// An ID reference
    IdRef,
    /// A space-separated list of ID references
    IdRefList,
    /// Freeform text (always valid)
    FreeText,
}

impl AriaValueType {
    /// Which character sequences are valid values of this type.
    pub open spec fn accepts(self, v: Seq<char>) -> bool {
        match self {
            AriaValueType::Bool => v == "true"@ || v == "false"@,
            AriaValueType::TristateBool => v == "true"@ || v == "false"@ || v == "mixed"@,
            AriaValueType::BoolOrUndefined => v == "true"@ || v == "false"@ || v == "undefined"@,
            AriaValueType::Enum(list) => in_str_list(list_views(list@), v),
            AriaValueType::Integer => crate::text::is_i64_string(v),
            AriaValueType::Number => crate::text::float_ok(v),
            AriaValueType::IdRef => true,
            AriaValueType::IdRefList => true,
            AriaValueType::FreeText => true,
        }
    }

    /// The description of the expected values, as shown in diagnostics.
    pub open spec fn desc_spec(self) -> Seq<char> {
        match self {
            AriaValueType::Bool => "\"true\" or \"false\""@,
            AriaValueType::TristateBool => "\"true\", \"false\", or \"mixed\""@,
            AriaValueType::BoolOrUndefined => "\"true\", \"false\", or \"undefined\""@,
            AriaValueType::Enum(list) => "one of: "@ + join_quoted(list_views(list@)),
            AriaValueType::Integer => "an integer"@,
            AriaValueType::Number => "a number"@,
            AriaValueType::IdRef => "an element ID reference"@,
            AriaValueType::IdRefList => "a space-separated list of element ID references"@,
            AriaValueType::FreeText => "any text"@,
        }
    }

    /// Check whether a static value is valid for this type.
    #[verifier::loop_isolation(false)]
    pub fn is_valid(&self, value: &str) -> (r: bool)
        ensures
            r == self.accepts(value@),
    {
        match self {
            AriaValueType::Bool => str_eq(value, "true") || str_eq(value, "false"),
            AriaValueType::TristateBool => str_eq(value, "true") || str_eq(value, "false")
                || str_eq(value, "mixed"),
            AriaValueType::BoolOrUndefined => str_eq(value, "true") || str_eq(value, "false")
                || str_eq(value, "undefined"),
            AriaValueType::Enum(list) => {
                let l: &'static [&'static str] = *list;
                let mut i: usize = 0;
                while i < l.len()
                    invariant
                        0 <= i <= l@.len(),
                        forall|j: int| 0 <= j < i ==> l@[j]@ != value@,
                    decreases l@.len() - i,
                {
                    if str_eq(*slice_index_get(l, i), value) {
                        assert(list_views(l@)[i as int] == value@);
                        return true;
                    }
                    i += 1;
                }
                assert(!in_str_list(list_views(l@), value@)) by {
                    assert(forall|j: int|
                        0 <= j < l@.len() ==> #[trigger] list_views(l@)[j] != value@);
                }
                false
            },
            AriaValueType::Integer => is_valid_integer(value),
            AriaValueType::Number => is_valid_number(value),
            AriaValueType::IdRef => true,
            AriaValueType::IdRefList => true,
            AriaValueType::FreeText => true,
        }
    }

    /// A human-readable description of the expected values.
    #[verifier::loop_isolation(false)]
    pub fn expected_description(&self) -> (r: String)
        ensures
            r@ == self.desc_spec(),
    {
        match self {
            AriaValueType::Bool => String::from_str("\"true\" or \"false\""),
            AriaValueType::TristateBool => String::from_str("\"true\", \"false\", or \"mixed\""),
            AriaValueType::BoolOrUndefined => String::from_str("\"true\", \"false\", or \"undefined\""),
            AriaValueType::Enum(list) => {
                let l: &'static [&'static str] = *list;
                let mut s = String::from_str("one of: ");
                let mut i: usize = 0;
                while i < l.len()
                    invariant
                        0 <= i <= l@.len(),
                        s@ == "one of: "@ + join_quoted(list_views(l@).take(i as int)),
                    decreases l@.len() - i,
                {
                    if i > 0 {
                        s.append(", ");
                    }
                    s.append("\"");
                    s.append(*slice_index_get(l, i));
                    s.append("\"");
                    proof {
                        let items = list_views(l@);
                        assert(items.take(i + 1).drop_last() =~= items.take(i as int));
                        assert(items.take(i + 1).last() == items[i as int]);
                        if i == 0 {
                            assert(s@ =~= "one of: "@ + join_quoted(items.take(i + 1)));
                        } else {
                            assert(s@ =~= "one of: "@ + join_quoted(items.take(i + 1)));
                        }
                    }
                    i += 1;
                }
                assert(list_views(l@).take(l@.len() as int) =~= list_views(l@));
                s
            },
            AriaValueType::Integer => String::from_str("an integer"),
            AriaValueType::Number => String::from_str("a number"),
            AriaValueType::IdRef => String::from_str("an element ID reference"),
            AriaValueType::IdRefList => String::from_str("a space-separated list of element ID references"),
            AriaValueType::FreeText => String::from_str("any text"),
        }
    }
}


/// WAI-ARIA attribute names (e.g. `aria-checked`, `aria-label`), as defined
/// in the WAI-ARIA 1.2 specification.
#[derive(Clone, Copy, Debug, PartialEq, Eq, Structural)]
pub enum Aria {
    ActiveDescendant,
    Atomic,
    Autocomplete,
    BrailleLabel,
    BrailleRoleDescription,
    Busy,
    Checked,
    ColCount,
    ColIndex,
    ColIndexText,
    ColSpan,
    Controls,
    Current,
    DescribedBy,
    Description,
    Details,
    Disabled,
    DropEffect,
    ErrorMessage,
    Expanded,
    FlowTo,
    Grabbed,
    HasPopup,
    Hidden,
    Invalid,
    KeyShortcuts,
    Label,
    LabelledBy,
    Level,
    Live,
    Modal,
    Multiline,
    Multiselectable,
    Orientation,
    Owns,
    Placeholder,
    PosInSet,
    Pressed,
    ReadOnly,
    Relevant,
    Required,
    RoleDescription,
    RowCount,
    RowIndex,
    RowIndexText,
    RowSpan,
    Selected,
    SetSize,
    Sort,
    ValueMax,
    ValueMin,
    ValueNow,
    ValueText,
}

impl Aria {
    /// The attribute name this variant stands for.
    pub open spec fn name_spec(self) -> Seq<char> {
        match self {
            Aria::ActiveDescendant => "aria-activedescendant"@,
            Aria::Atomic => "aria-atomic"@,
            Aria::Autocomplete => "aria-autocomplete"@,
            Aria::BrailleLabel => "aria-braillelabel"@,
            Aria::BrailleRoleDescription => "aria-brailleroledescription"@,
            Aria::Busy => "aria-busy"@,
            Aria::Checked => "aria-checked"@,
            Aria::ColCount => "aria-colcount"@,
            Aria::ColIndex => "aria-colindex"@,
            Aria::ColIndexText => "aria-colindextext"@,
            Aria::ColSpan => "aria-colspan"@,
            Aria::Controls => "aria-controls"@,
            Aria::Current => "aria-current"@,
            Aria::DescribedBy => "aria-describedby"@,
            Aria::Description => "aria-description"@,
            Aria::Details => "aria-details"@,
            Aria::Disabled => "aria-disabled"@,
            Aria::DropEffect => "aria-dropeffect"@,
            Aria::ErrorMessage => "aria-errormessage"@,
            Aria::Expanded => "aria-expanded"@,
            Aria::FlowTo => "aria-flowto"@,
            Aria::Grabbed => "aria-grabbed"@,
            Aria::HasPopup => "aria-haspopup"@,
            Aria::Hidden => "aria-hidden"@,
            Aria::Invalid => "aria-invalid"@,
            Aria::KeyShortcuts => "aria-keyshortcuts"@,
            Aria::Label => "aria-label"@,
            Aria::LabelledBy => "aria-labelledby"@,
            Aria::Level => "aria-level"@,
            Aria::Live => "aria-live"@,
            Aria::Modal => "aria-modal"@,
            Aria::Multiline => "aria-multiline"@,
            Aria::Multiselectable => "aria-multiselectable"@,
            Aria::Orientation => "aria-orientation"@,
            Aria::Owns => "aria-owns"@,
            Aria::Placeholder => "aria-placeholder"@,
            Aria::PosInSet => "aria-posinset"@,
            Aria::Pressed => "aria-pressed"@,
            Aria::ReadOnly => "aria-readonly"@,
            Aria::Relevant => "aria-relevant"@,
            Aria::Required => "aria-required"@,
            Aria::RoleDescription => "aria-roledescription"@,
            Aria::RowCount => "aria-rowcount"@,
            Aria::RowIndex => "aria-rowindex"@,
            Aria::RowIndexText => "aria-rowindextext"@,
            Aria::RowSpan => "aria-rowspan"@,
            Aria::Selected => "aria-selected"@,
            Aria::SetSize => "aria-setsize"@,
            Aria::Sort => "aria-sort"@,
            Aria::ValueMax => "aria-valuemax"@,
            Aria::ValueMin => "aria-valuemin"@,
            Aria::ValueNow => "aria-valuenow"@,
            Aria::ValueText => "aria-valuetext"@,
        }
    }

    /// The attribute name this variant stands for.
    pub fn name(&self) -> (r: &'static str)
        ensures
            r@ == self.name_spec(),
    {
        match self {
            Aria::ActiveDescendant => "aria-activedescendant",
            Aria::Atomic => "aria-atomic",
            Aria::Autocomplete => "aria-autocomplete",
            Aria::BrailleLabel => "aria-braillelabel",
            Aria::BrailleRoleDescription => "aria-brailleroledescription",
            Aria::Busy => "aria-busy",
            Aria::Checked => "aria-checked",
            Aria::ColCount => "aria-colcount",
            Aria::ColIndex => "aria-colindex",
            Aria::ColIndexText => "aria-colindextext",
            Aria::ColSpan => "aria-colspan",
            Aria::Controls => "aria-controls",
            Aria::Current => "aria-current",
            Aria::DescribedBy => "aria-describedby",
            Aria::Description => "aria-description",
            Aria::Details => "aria-details",
            Aria::Disabled => "aria-disabled",
            Aria::DropEffect => "aria-dropeffect",
            Aria::ErrorMessage => "aria-errormessage",
            Aria::Expanded => "aria-expanded",
            Aria::FlowTo => "aria-flowto",
            Aria::Grabbed => "aria-grabbed",
            Aria::HasPopup => "aria-haspopup",
            Aria::Hidden => "aria-hidden",
            Aria::Invalid => "aria-invalid",
            Aria::KeyShortcuts => "aria-keyshortcuts",
            Aria::Label => "aria-label",
            Aria::LabelledBy => "aria-labelledby",
            Aria::Level => "aria-level",
            Aria::Live => "aria-live",
            Aria::Modal => "aria-modal",
            Aria::Multiline => "aria-multiline",
            Aria::Multiselectable => "aria-multiselectable",
            Aria::Orientation => "aria-orientation",
            Aria::Owns => "aria-owns",
            Aria::Placeholder => "aria-placeholder",
            Aria::PosInSet => "aria-posinset",
            Aria::Pressed => "aria-pressed",
            Aria::ReadOnly => "aria-readonly",
            Aria::Relevant => "aria-relevant",
            Aria::Required => "aria-required",
            Aria::RoleDescription => "aria-roledescription",
            Aria::RowCount => "aria-rowcount",
            Aria::RowIndex => "aria-rowindex",
            Aria::RowIndexText => "aria-rowindextext",
            Aria::RowSpan => "aria-rowspan",
            Aria::Selected => "aria-selected",
            Aria::SetSize => "aria-setsize",
            Aria::Sort => "aria-sort",
            Aria::ValueMax => "aria-valuemax",
            Aria::ValueMin => "aria-valuemin",
            Aria::ValueNow => "aria-valuenow",
            Aria::ValueText => "aria-valuetext",
        }
    }

    /// Looks an `aria-*` attribute name up: `Some` exactly for the names of
    /// the table, `None` for every other string.
    pub fn from_str(name: &str) -> (r: Option<Aria>)
        ensures
            match r {
                Some(a) => a.name_spec() == name@,
                None => forall|a: Aria| a.name_spec() != name@,
            },
    {
        if str_eq(name, "aria-activedescendant") {
            return Some(Aria::ActiveDescendant);
        }
        if str_eq(name, "aria-atomic") {
            return Some(Aria::Atomic);
        }
        if str_eq(name, "aria-autocomplete") {
            return Some(Aria::Autocomplete);
        }
        if str_eq(name, "aria-braillelabel") {
            return Some(Aria::BrailleLabel);
        }
        if str_eq(name, "aria-brailleroledescription") {
            return Some(Aria::BrailleRoleDescription);
        }
        if str_eq(name, "aria-busy") {
            return Some(Aria::Busy);
        }
        if str_eq(name, "aria-checked") {
            return Some(Aria::Checked);
        }
        if str_eq(name, "aria-colcount") {
            return Some(Aria::ColCount);
        }
        if str_eq(name, "aria-colindex") {
            return Some(Aria::ColIndex);
        }
        if str_eq(name, "aria-colindextext") {
            return Some(Aria::ColIndexText);
        }
        if str_eq(name, "aria-colspan") {
            return Some(Aria::ColSpan);
        }
        if str_eq(name, "aria-controls") {
            return Some(Aria::Controls);
        }
        if str_eq(name, "aria-current") {
            return Some(Aria::Current);
        }
        if str_eq(name, "aria-describedby") {
            return Some(Aria::DescribedBy);
        }
        if str_eq(name, "aria-description") {
            return Some(Aria::Description);
        }
        if str_eq(name, "aria-details") {
            return Some(Aria::Details);
        }
        if str_eq(name, "aria-disabled") {
            return Some(Aria::Disabled);
        }
        if str_eq(name, "aria-dropeffect") {
            return Some(Aria::DropEffect);
        }
        if str_eq(name, "aria-errormessage") {
            return Some(Aria::ErrorMessage);
        }
        if str_eq(name, "aria-expanded") {
            return Some(Aria::Expanded);
        }
        if str_eq(name, "aria-flowto") {
            return Some(Aria::FlowTo);
        }
        if str_eq(name, "aria-grabbed") {
            return Some(Aria::Grabbed);
        }
        if str_eq(name, "aria-haspopup") {
            return Some(Aria::HasPopup);
        }
        if str_eq(name, "aria-hidden") {
            return Some(Aria::Hidden);
        }
        if str_eq(name, "aria-invalid") {
            return Some(Aria::Invalid);
        }
        if str_eq(name, "aria-keyshortcuts") {
            return Some(Aria::KeyShortcuts);
        }
        if str_eq(name, "aria-label") {
            return Some(Aria::Label);
        }
        if str_eq(name, "aria-labelledby") {
            return Some(Aria::LabelledBy);
        }
        if str_eq(name, "aria-level") {
            return Some(Aria::Level);
        }
        if str_eq(name, "aria-live") {
            return Some(Aria::Live);
        }
        if str_eq(name, "aria-modal") {
            return Some(Aria::Modal);
        }
        if str_eq(name, "aria-multiline") {
            return Some(Aria::Multiline);
        }
        if str_eq(name, "aria-multiselectable") {
            return Some(Aria::Multiselectable);
        }
        if str_eq(name, "aria-orientation") {
            return Some(Aria::Orientation);
        }
        if str_eq(name, "aria-owns") {
            return Some(Aria::Owns);
        }
        if str_eq(name, "aria-placeholder") {
            return Some(Aria::Placeholder);
        }
        if str_eq(name, "aria-posinset") {
            return Some(Aria::PosInSet);
        }
        if str_eq(name, "aria-pressed") {
            return Some(Aria::Pressed);
        }
        if str_eq(name, "aria-readonly") {
            return Some(Aria::ReadOnly);
        }
        if str_eq(name, "aria-relevant") {
            return Some(Aria::Relevant);
        }
        if str_eq(name, "aria-required") {
            return Some(Aria::Required);
        }
        if str_eq(name, "aria-roledescription") {
            return Some(Aria::RoleDescription);
        }
        if str_eq(name, "aria-rowcount") {
            return Some(Aria::RowCount);
        }
        if str_eq(name, "aria-rowindex") {
            return Some(Aria::RowIndex);
        }
        if str_eq(name, "aria-rowindextext") {
            return Some(Aria::RowIndexText);
        }
        if str_eq(name, "aria-rowspan") {
            return Some(Aria::RowSpan);
        }
        if str_eq(name, "aria-selected") {
            return Some(Aria::Selected);
        }
        if str_eq(name, "aria-setsize") {
            return Some(Aria::SetSize);
        }
        if str_eq(name, "aria-sort") {
            return Some(Aria::Sort);
        }
        if str_eq(name, "aria-valuemax") {
            return Some(Aria::ValueMax);
        }
        if str_eq(name, "aria-valuemin") {
            return Some(Aria::ValueMin);
        }
        if str_eq(name, "aria-valuenow") {
            return Some(Aria::ValueNow);
        }
        if str_eq(name, "aria-valuetext") {
            return Some(Aria::ValueText);
        }
        assert forall|a: Aria| a.name_spec() != name@ by {
        }
        None
    }

    /// The kind of value this property accepts.
    pub open spec fn value_ok(self, v: Seq<char>) -> bool {
        match self {
            Aria::ActiveDescendant => true,
            Aria::Atomic => v == "true"@ || v == "false"@,
            Aria::Autocomplete => in_str_list(self.enum_values(), v),
            Aria::BrailleLabel => true,
            Aria::BrailleRoleDescription => true,
            Aria::Busy => v == "true"@ || v == "false"@,
            Aria::Checked => v == "true"@ || v == "false"@ || v == "mixed"@,
            Aria::ColCount => crate::text::is_i64_string(v),
            Aria::ColIndex => crate::text::is_i64_string(v),
            Aria::ColIndexText => true,
            Aria::ColSpan => crate::text::is_i64_string(v),
            Aria::Controls => true,
            Aria::Current => in_str_list(self.enum_values(), v),
            Aria::DescribedBy => true,
            Aria::Description => true,
            Aria::Details => true,
            Aria::Disabled => v == "true"@ || v == "false"@,
            Aria::DropEffect => in_str_list(self.enum_values(), v),
            Aria::ErrorMessage => true,
            Aria::Expanded => v == "true"@ || v == "false"@ || v == "undefined"@,
            Aria::FlowTo => true,
            Aria::Grabbed => v == "true"@ || v == "false"@ || v == "undefined"@,
            Aria::HasPopup => in_str_list(self.enum_values(), v),
            Aria::Hidden => v == "true"@ || v == "false"@ || v == "undefined"@,
            Aria::Invalid => in_str_list(self.enum_values(), v),
            Aria::KeyShortcuts => true,
            Aria::Label => true,
            Aria::LabelledBy => true,
            Aria::Level => crate::text::is_i64_string(v),
            Aria::Live => in_str_list(self.enum_values(), v),
            Aria::Modal => v == "true"@ || v == "false"@,
            Aria::Multiline => v == "true"@ || v == "false"@,
            Aria::Multiselectable => v == "true"@ || v == "false"@,
            Aria::Orientation => in_str_list(self.enum_values(), v),
            Aria::Owns => true,
            Aria::Placeholder => true,
            Aria::PosInSet => crate::text::is_i64_string(v),
            Aria::Pressed => v == "true"@ || v == "false"@ || v == "mixed"@,
            Aria::ReadOnly => v == "true"@ || v == "false"@,
            Aria::Relevant => in_str_list(self.enum_values(), v),
            Aria::Required => v == "true"@ || v == "false"@,
            Aria::RoleDescription => true,
            Aria::RowCount => crate::text::is_i64_string(v),
            Aria::RowIndex => crate::text::is_i64_string(v),
            Aria::RowIndexText => true,
            Aria::RowSpan => crate::text::is_i64_string(v),
            Aria::Selected => v == "true"@ || v == "false"@ || v == "undefined"@,
            Aria::SetSize => crate::text::is_i64_string(v),
            Aria::Sort => in_str_list(self.enum_values(), v),
            Aria::ValueMax => crate::text::float_ok(v),
            Aria::ValueMin => crate::text::float_ok(v),
            Aria::ValueNow => crate::text::float_ok(v),
            Aria::ValueText => true,
        }
    }

    /// For properties with an enumerated value set: the legal values.
    pub open spec fn enum_values(self) -> Seq<Seq<char>> {
        match self {
            Aria::Autocomplete => seq!["inline"@, "list"@, "both"@, "none"@],
            Aria::Current => seq!["page"@, "step"@, "location"@, "date"@, "time"@, "true"@, "false"@],
            Aria::DropEffect => seq!["copy"@, "execute"@, "link"@, "move"@, "none"@, "popup"@],
            Aria::HasPopup => seq!["true"@, "false"@, "menu"@, "listbox"@, "tree"@, "grid"@, "dialog"@],
            Aria::Invalid => seq!["true"@, "false"@, "grammar"@, "spelling"@],
            Aria::Live => seq!["assertive"@, "off"@, "polite"@],
            Aria::Orientation => seq!["horizontal"@, "vertical"@, "undefined"@],
            Aria::Relevant => seq!["additions"@, "additions text"@, "all"@, "removals"@, "text"@],
            Aria::Sort => seq!["ascending"@, "descending"@, "none"@, "other"@],
            _ => Seq::empty(),
        }
    }

    /// The description of this property's expected values.
    pub open spec fn desc_spec(self) -> Seq<char> {
        match self {
            Aria::ActiveDescendant => "an element ID reference"@,
            Aria::Atomic => "\"true\" or \"false\""@,
            Aria::Autocomplete => "one of: "@ + join_quoted(self.enum_values()),
            Aria::BrailleLabel => "any text"@,
            Aria::BrailleRoleDescription => "any text"@,
            Aria::Busy => "\"true\" or \"false\""@,
            Aria::Checked => "\"true\", \"false\", or \"mixed\""@,
            Aria::ColCount => "an integer"@,
            Aria::ColIndex => "an integer"@,
            Aria::ColIndexText => "any text"@,
            Aria::ColSpan => "an integer"@,
            Aria::Controls => "a space-separated list of element ID references"@,
            Aria::Current => "one of: "@ + join_quoted(self.enum_values()),
            Aria::DescribedBy => "a space-separated list of element ID references"@,
            Aria::Description => "any text"@,
            Aria::Details => "an element ID reference"@,
            Aria::Disabled => "\"true\" or \"false\""@,
            Aria::DropEffect => "one of: "@ + join_quoted(self.enum_values()),
            Aria::ErrorMessage => "an element ID reference"@,
            Aria::Expanded => "\"true\", \"false\", or \"undefined\""@,
            Aria::FlowTo => "a space-separated list of element ID references"@,
            Aria::Grabbed => "\"true\", \"false\", or \"undefined\""@,
            Aria::HasPopup => "one of: "@ + join_quoted(self.enum_values()),
            Aria::Hidden => "\"true\", \"false\", or \"undefined\""@,
            Aria::Invalid => "one of: "@ + join_quoted(self.enum_values()),
            Aria::KeyShortcuts => "any text"@,
            Aria::Label => "any text"@,
            Aria::LabelledBy => "a space-separated list of element ID references"@,
            Aria::Level => "an integer"@,
            Aria::Live => "one of: "@ + join_quoted(self.enum_values()),
            Aria::Modal => "\"true\" or \"false\""@,
            Aria::Multiline => "\"true\" or \"false\""@,
            Aria::Multiselectable => "\"true\" or \"false\""@,
            Aria::Orientation => "one of: "@ + join_quoted(self.enum_values()),
            Aria::Owns => "a space-separated list of element ID references"@,
            Aria::Placeholder => "any text"@,
            Aria::PosInSet => "an integer"@,
            Aria::Pressed => "\"true\", \"false\", or \"mixed\""@,
            Aria::ReadOnly => "\"true\" or \"false\""@,
            Aria::Relevant => "one of: "@ + join_quoted(self.enum_values()),
            Aria::Required => "\"true\" or \"false\""@,
            Aria::RoleDescription => "any text"@,
            Aria::RowCount => "an integer"@,
            Aria::RowIndex => "an integer"@,
            Aria::RowIndexText => "any text"@,
            Aria::RowSpan => "an integer"@,
            Aria::Selected => "\"true\", \"false\", or \"undefined\""@,
            Aria::SetSize => "an integer"@,
            Aria::Sort => "one of: "@ + join_quoted(self.enum_values()),
            Aria::ValueMax => "a number"@,
            Aria::ValueMin => "a number"@,
            Aria::ValueNow => "a number"@,
            Aria::ValueText => "any text"@,
        }
    }

    /// The type of value this property accepts.
    pub fn value_type(&self) -> (r: AriaValueType)
        ensures
            forall|v: Seq<char>| #[trigger] r.accepts(v) == self.value_ok(v),
            r.desc_spec() == self.desc_spec(),
    {
        match self {
            Aria::ActiveDescendant => AriaValueType::IdRef,
            Aria::Atomic => AriaValueType::Bool,
            Aria::Autocomplete => {
                let l: &'static [&'static str] = &["inline", "list", "both", "none"];
                proof {
                    assert(list_views(l@) =~= self.enum_values());
                }
                AriaValueType::Enum(l)
            },
            Aria::BrailleLabel => AriaValueType::FreeText,
            Aria::BrailleRoleDescription => AriaValueType::FreeText,
            Aria::Busy => AriaValueType::Bool,
            Aria::Checked => AriaValueType::TristateBool,
            Aria::ColCount => AriaValueType::Integer,
            Aria::ColIndex => AriaValueType::Integer,
            Aria::ColIndexText => AriaValueType::FreeText,
            Aria::ColSpan => AriaValueType::Integer,
            Aria::Controls => AriaValueType::IdRefList,
            Aria::Current => {
                let l: &'static [&'static str] = &["page", "step", "location", "date", "time", "true", "false"];
                proof {
                    assert(list_views(l@) =~= self.enum_values());
                }
                AriaValueType::Enum(l)
            },
            Aria::DescribedBy => AriaValueType::IdRefList,
            Aria::Description => AriaValueType::FreeText,
            Aria::Details => AriaValueType::IdRef,
            Aria::Disabled => AriaValueType::Bool,
            Aria::DropEffect => {
                let l: &'static [&'static str] = &["copy", "execute", "link", "move", "none", "popup"];
                proof {
                    assert(list_views(l@) =~= self.enum_values());
                }
                AriaValueType::Enum(l)
            },
            Aria::ErrorMessage => AriaValueType::IdRef,
            Aria::Expanded => AriaValueType::BoolOrUndefined,
            Aria::FlowTo => AriaValueType::IdRefList,
            Aria::Grabbed => AriaValueType::BoolOrUndefined,
            Aria::HasPopup => {
                let l: &'static [&'static str] = &["true", "false", "menu", "listbox", "tree", "grid", "dialog"];
                proof {
                    assert(list_views(l@) =~= self.enum_values());
                }
                AriaValueType::Enum(l)
            },
            Aria::Hidden => AriaValueType::BoolOrUndefined,
            Aria::Invalid => {
                let l: &'static [&'static str] = &["true", "false", "grammar", "spelling"];
                proof {
                    assert(list_views(l@) =~= self.enum_values());
                }
                AriaValueType::Enum(l)
            },
            Aria::KeyShortcuts => AriaValueType::FreeText,
            Aria::Label => AriaValueType::FreeText,
            Aria::LabelledBy => AriaValueType::IdRefList,
            Aria::Level => AriaValueType::Integer,
            Aria::Live => {
                let l: &'static [&'static str] = &["assertive", "off", "polite"];
                proof {
                    assert(list_views(l@) =~= self.enum_values());
                }
                AriaValueType::Enum(l)
            },
            Aria::Modal => AriaValueType::Bool,
            Aria::Multiline => AriaValueType::Bool,
            Aria::Multiselectable => AriaValueType::Bool,
            Aria::Orientation => {
                let l: &'static [&'static str] = &["horizontal", "vertical", "undefined"];
                proof {
                    assert(list_views(l@) =~= self.enum_values());
                }
                AriaValueType::Enum(l)
            },
            Aria::Owns => AriaValueType::IdRefList,
            Aria::Placeholder => AriaValueType::FreeText,
            Aria::PosInSet => AriaValueType::Integer,
            Aria::Pressed => AriaValueType::TristateBool,
            Aria::ReadOnly => AriaValueType::Bool,
            Aria::Relevant => {
                let l: &'static [&'static str] = &["additions", "additions text", "all", "removals", "text"];
                proof {
                    assert(list_views(l@) =~= self.enum_values());
                }
                AriaValueType::Enum(l)
            },
            Aria::Required => AriaValueType::Bool,
            Aria::RoleDescription => AriaValueType::FreeText,
            Aria::RowCount => AriaValueType::Integer,
            Aria::RowIndex => AriaValueType::Integer,
            Aria::RowIndexText => AriaValueType::FreeText,
            Aria::RowSpan => AriaValueType::Integer,
            Aria::Selected => AriaValueType::BoolOrUndefined,
            Aria::SetSize => AriaValueType::Integer,
            Aria::Sort => {
                let l: &'static [&'static str] = &["ascending", "descending", "none", "other"];
                proof {
                    assert(list_views(l@) =~= self.enum_values());
                }
                AriaValueType::Enum(l)
            },
            Aria::ValueMax => AriaValueType::Number,
            Aria::ValueMin => AriaValueType::Number,
            Aria::ValueNow => AriaValueType::Number,
            Aria::ValueText => AriaValueType::FreeText,
        }
    }

    /// Whether this property is a global state or property, supported by
    /// every role.
    pub open spec fn is_global_spec(self) -> bool {
        match self {
            Aria::Atomic | Aria::BrailleLabel | Aria::BrailleRoleDescription | Aria::Busy | Aria::Controls | Aria::Current | Aria::DescribedBy | Aria::Description | Aria::Details | Aria::Disabled | Aria::DropEffect | Aria::ErrorMessage | Aria::FlowTo | Aria::Grabbed | Aria::HasPopup | Aria::Hidden | Aria::Invalid | Aria::KeyShortcuts | Aria::Label | Aria::LabelledBy | Aria::Live | Aria::Owns | Aria::Relevant | Aria::RoleDescription => true,
            _ => false,
        }
    }

    /// Whether this ARIA property is a global state/property (supported by
    /// all roles).
    pub fn is_global(&self) -> (r: bool)
        ensures
            r == self.is_global_spec(),
    {
        match self {
            Aria::Atomic | Aria::BrailleLabel | Aria::BrailleRoleDescription | Aria::Busy | Aria::Controls | Aria::Current | Aria::DescribedBy | Aria::Description | Aria::Details | Aria::Disabled | Aria::DropEffect | Aria::ErrorMessage | Aria::FlowTo | Aria::Grabbed | Aria::HasPopup | Aria::Hidden | Aria::Invalid | Aria::KeyShortcuts | Aria::Label | Aria::LabelledBy | Aria::Live | Aria::Owns | Aria::Relevant | Aria::RoleDescription => true,
            _ => false,
        }
    }

    /// Whether this property is supported on the given role: global
    /// properties always are; the rest are checked against a role
    /// allow-list, and a pair absent from every list counts as supported.
    pub open spec fn supported_spec(self, role: Role) -> bool {
        if self.is_global_spec() {
            true
        } else {
            match self {
                Aria::ActiveDescendant => match role {
                    Role::Application | Role::Combobox | Role::Grid | Role::Group | Role::ListBox | Role::Menu | Role::Menubar | Role::RadioGroup | Role::Row | Role::SearchBox | Role::TabList | Role::TextBox | Role::Tree | Role::TreeGrid => true,
                    _ => false,
                },
                Aria::Autocomplete => match role {
                    Role::Combobox | Role::SearchBox | Role::TextBox => true,
                    _ => false,
                },
                Aria::Checked => match role {
                    Role::Checkbox | Role::MenuItemCheckbox | Role::MenuItemRadio | Role::Option | Role::Radio | Role::Switch => true,
                    _ => false,
                },
                Aria::ColCount => match role {
                    Role::Grid | Role::Table | Role::TreeGrid => true,
                    _ => false,
                },
                Aria::ColIndex => match role {
                    Role::Cell | Role::ColumnHeader | Role::GridCell | Role::Row | Role::RowHeader => true,
                    _ => false,
                },
                Aria::ColIndexText => match role {
                    Role::Cell | Role::ColumnHeader | Role::GridCell | Role::Row | Role::RowHeader => true,
                    _ => false,
                },
                Aria::ColSpan => match role {
                    Role::Cell | Role::ColumnHeader | Role::GridCell | Role::RowHeader => true,
                    _ => false,
                },
                Aria::Expanded => match role {
                    Role::Application | Role::Button | Role::Checkbox | Role::Combobox | Role::GridCell | Role::Link | Role::ListBox | Role::MenuItem | Role::MenuItemCheckbox | Role::MenuItemRadio | Role::Row | Role::RowHeader | Role::Tab | Role::TreeItem => true,
                    _ => false,
                },
                Aria::Level => match role {
                    Role::Heading | Role::ListItem | Role::Row | Role::TabList => true,
                    _ => false,
                },
                Aria::Modal => match role {
                    Role::AlertDialog | Role::Dialog => true,
                    _ => false,
                },
                Aria::Multiline => match role {
                    Role::TextBox => true,
                    _ => false,
                },
                Aria::Multiselectable => match role {
                    Role::Grid | Role::ListBox | Role::TabList | Role::Tree | Role::TreeGrid => true,
                    _ => false,
                },
                Aria::Orientation => match role {
                    Role::Combobox | Role::ListBox | Role::Menu | Role::Menubar | Role::RadioGroup | Role::ScrollBar | Role::Separator | Role::Slider | Role::TabList | Role::Toolbar | Role::Tree | Role::TreeGrid => true,
                    _ => false,
                },
                Aria::Placeholder => match role {
                    Role::SearchBox | Role::TextBox => true,
                    _ => false,
                },
                Aria::PosInSet => match role {
                    Role::Article | Role::ListItem | Role::MenuItem | Role::MenuItemCheckbox | Role::MenuItemRadio | Role::Option | Role::Radio | Role::Row | Role::Tab | Role::TreeItem => true,
                    _ => false,
                },
                Aria::Pressed => match role {
                    Role::Button => true,
                    _ => false,
                },
                Aria::ReadOnly => match role {
                    Role::Checkbox | Role::Combobox | Role::Grid | Role::GridCell | Role::ListBox | Role::RadioGroup | Role::Slider | Role::SpinButton | Role::TextBox => true,
                    _ => false,
                },
                Aria::Required => match role {
                    Role::Checkbox | Role::Combobox | Role::GridCell | Role::ListBox | Role::RadioGroup | Role::SpinButton | Role::TextBox | Role::Tree => true,
                    _ => false,
                },
                Aria::RowCount => match role {
                    Role::Grid | Role::Table | Role::TreeGrid => true,
                    _ => false,
                },
                Aria::RowIndex => match role {
                    Role::Cell | Role::ColumnHeader | Role::GridCell | Role::Row | Role::RowHeader => true,
                    _ => false,
                },
                Aria::RowIndexText => match role {
                    Role::Cell | Role::ColumnHeader | Role::GridCell | Role::Row | Role::RowHeader => true,
                    _ => false,
                },
                Aria::RowSpan => match role {
                    Role::Cell | Role::ColumnHeader | Role::GridCell | Role::RowHeader => true,
                    _ => false,
                },
                Aria::Selected => match role {
                    Role::Cell | Role::ColumnHeader | Role::GridCell | Role::Option | Role::Row | Role::RowHeader | Role::Tab | Role::TreeItem => true,
                    _ => false,
                },
                Aria::SetSize => match role {
                    Role::Article | Role::ListItem | Role::MenuItem | Role::MenuItemCheckbox | Role::MenuItemRadio | Role::Option | Role::Radio | Role::Row | Role::Tab | Role::TreeItem => true,
                    _ => false,
                },
                Aria::Sort => match role {
                    Role::ColumnHeader | Role::RowHeader => true,
                    _ => false,
                },
                Aria::ValueMax => match role {
                    Role::Meter | Role::ProgressBar | Role::ScrollBar | Role::Separator | Role::Slider | Role::SpinButton => true,
                    _ => false,
                },
                Aria::ValueMin => match role {
                    Role::Meter | Role::ProgressBar | Role::ScrollBar | Role::Separator | Role::Slider | Role::SpinButton => true,
                    _ => false,
                },
                Aria::ValueNow => match role {
                    Role::Meter | Role::ProgressBar | Role::ScrollBar | Role::Separator | Role::Slider | Role::SpinButton => true,
                    _ => false,
                },
                Aria::ValueText => match role {
                    Role::Meter | Role::ProgressBar | Role::ScrollBar | Role::Separator | Role::Slider | Role::SpinButton => true,
                    _ => false,
                },
                _ => true,
            }
        }
    }

    /// Check if this ARIA property is supported by the given role.
    pub fn is_supported_by_role(&self, role: &Role) -> (r: bool)
        ensures
            r == self.supported_spec(*role),
    {
        if self.is_global() {
            return true;
        }
        match self {
            Aria::ActiveDescendant => matches!(role, Role::Application | Role::Combobox | Role::Grid | Role::Group | Role::ListBox | Role::Menu | Role::Menubar | Role::RadioGroup | Role::Row | Role::SearchBox | Role::TabList | Role::TextBox | Role::Tree | Role::TreeGrid),
            Aria::Autocomplete => matches!(role, Role::Combobox | Role::SearchBox | Role::TextBox),
            Aria::Checked => matches!(role, Role::Checkbox | Role::MenuItemCheckbox | Role::MenuItemRadio | Role::Option | Role::Radio | Role::Switch),
            Aria::ColCount => matches!(role, Role::Grid | Role::Table | Role::TreeGrid),
            Aria::ColIndex => matches!(role, Role::Cell | Role::ColumnHeader | Role::GridCell | Role::Row | Role::RowHeader),
            Aria::ColIndexText => matches!(role, Role::Cell | Role::ColumnHeader | Role::GridCell | Role::Row | Role::RowHeader),
            Aria::ColSpan => matches!(role, Role::Cell | Role::ColumnHeader | Role::GridCell | Role::RowHeader),
            Aria::Expanded => matches!(role, Role::Application | Role::Button | Role::Checkbox | Role::Combobox | Role::GridCell | Role::Link | Role::ListBox | Role::MenuItem | Role::MenuItemCheckbox | Role::MenuItemRadio | Role::Row | Role::RowHeader | Role::Tab | Role::TreeItem),
            Aria::Level => matches!(role, Role::Heading | Role::ListItem | Role::Row | Role::TabList),
            Aria::Modal => matches!(role, Role::AlertDialog | Role::Dialog),
            Aria::Multiline => matches!(role, Role::TextBox),
            Aria::Multiselectable => matches!(role, Role::Grid | Role::ListBox | Role::TabList | Role::Tree | Role::TreeGrid),
            Aria::Orientation => matches!(role, Role::Combobox | Role::ListBox | Role::Menu | Role::Menubar | Role::RadioGroup | Role::ScrollBar | Role::Separator | Role::Slider | Role::TabList | Role::Toolbar | Role::Tree | Role::TreeGrid),
            Aria::Placeholder => matches!(role, Role::SearchBox | Role::TextBox),
            Aria::PosInSet => matches!(role, Role::Article | Role::ListItem | Role::MenuItem | Role::MenuItemCheckbox | Role::MenuItemRadio | Role::Option | Role::Radio | Role::Row | Role::Tab | Role::TreeItem),
            Aria::Pressed => matches!(role, Role::Button),
            Aria::ReadOnly => matches!(role, Role::Checkbox | Role::Combobox | Role::Grid | Role::GridCell | Role::ListBox | Role::RadioGroup | Role::Slider | Role::SpinButton | Role::TextBox),
            Aria::Required => matches!(role, Role::Checkbox | Role::Combobox | Role::GridCell | Role::ListBox | Role::RadioGroup | Role::SpinButton | Role::TextBox | Role::Tree),
            Aria::RowCount => matches!(role, Role::Grid | Role::Table | Role::TreeGrid),
            Aria::RowIndex => matches!(role, Role::Cell | Role::ColumnHeader | Role::GridCell | Role::Row | Role::RowHeader),
            Aria::RowIndexText => matches!(role, Role::Cell | Role::ColumnHeader | Role::GridCell | Role::Row | Role::RowHeader),
            Aria::RowSpan => matches!(role, Role::Cell | Role::ColumnHeader | Role::GridCell | Role::RowHeader),
            Aria::Selected => matches!(role, Role::Cell | Role::ColumnHeader | Role::GridCell | Role::Option | Role::Row | Role::RowHeader | Role::Tab | Role::TreeItem),
            Aria::SetSize => matches!(role, Role::Article | Role::ListItem | Role::MenuItem | Role::MenuItemCheckbox | Role::MenuItemRadio | Role::Option | Role::Radio | Role::Row | Role::Tab | Role::TreeItem),
            Aria::Sort => matches!(role, Role::ColumnHeader | Role::RowHeader),
            Aria::ValueMax => matches!(role, Role::Meter | Role::ProgressBar | Role::ScrollBar | Role::Separator | Role::Slider | Role::SpinButton),
            Aria::ValueMin => matches!(role, Role::Meter | Role::ProgressBar | Role::ScrollBar | Role::Separator | Role::Slider | Role::SpinButton),
            Aria::ValueNow => matches!(role, Role::Meter | Role::ProgressBar | Role::ScrollBar | Role::Separator | Role::Slider | Role::SpinButton),
            Aria::ValueText => matches!(role, Role::Meter | Role::ProgressBar | Role::ScrollBar | Role::Separator | Role::Slider | Role::SpinButton),
            _ => true,
        }
    }
}


/// WAI-ARIA roles that can be assigned to HTML elements via the `role`
/// attribute: the concrete roles first, then the abstract roles of the
/// ontology, which are never valid on an element.
#[derive(Clone, Copy, Debug, PartialEq, Eq, Structural)]
pub enum Role {
    Alert,
    AlertDialog,
    Application,
    Article,
    Banner,
    Button,
    Cell,
    Checkbox,
    ColumnHeader,
    Combobox,
    Complementary,
    ContentInfo,
    Definition,
    Dialog,
    Directory,
    Document,
    Feed,
    Figure,
    Form,
    Grid,
    GridCell,
    Group,
    Heading,
    Img,
    Link,
    List,
    ListBox,
    ListItem,
    Log,
    Main,
    Marquee,
    Math,
    Menu,
    Menubar,
    MenuItem,
    MenuItemCheckbox,
    MenuItemRadio,
    Meter,
    Navigation,
    NoneRole,
    Note,
    Option,
    Presentation,
    ProgressBar,
    Radio,
    RadioGroup,
    Region,
    Row,
    RowGroup,
    RowHeader,
    ScrollBar,
    Search,
    SearchBox,
    Separator,
    Slider,
    SpinButton,
    Status,
    Switch,
    Tab,
    Table,
    TabList,
    TabPanel,
    Term,
    TextBox,
    Timer,
    Toolbar,
    Tooltip,
    Tree,
    TreeGrid,
    TreeItem,
    // Abstract roles (ontology only)
    Command,
    Composite,
    Input,
    Landmark,
    Range,
    Roletype,
    Section,
    Sectionhead,
    Select,
    Structure,
    Widget,
    Window,
}

/// The role whose name is `s`, if there is one.
pub open spec fn role_named(s: Seq<char>) -> Option<Role> {
    if exists|ro: Role| ro.name_spec() == s {
        Some(choose|ro: Role| ro.name_spec() == s)
    } else {
        None
    }
}

// Each role name determines its role. One lemma per role keeps every
// query small: the solver only has to tell one revealed name apart from
// the other seventy-nine, with an explicit hint for every pair (a length
// for names of different lengths, a differing character otherwise).
proof fn role_name_unique_alert(b: Role)
    requires
        b.name_spec() == "alert"@,
    ensures
        b == Role::Alert,
{
    reveal_strlit("alert");
    reveal_strlit("alertdialog");
    reveal_strlit("application");
    reveal_strlit("article");
    reveal_strlit("banner");
    reveal_strlit("button");
    reveal_strlit("cell");
    reveal_strlit("checkbox");
    reveal_strlit("columnheader");
    reveal_strlit("combobox");
    reveal_strlit("complementary");
    reveal_strlit("contentinfo");
    reveal_strlit("definition");
    reveal_strlit("dialog");
    reveal_strlit("directory");
    reveal_strlit("document");
    reveal_strlit("feed");
    reveal_strlit("figure");
    reveal_strlit("form");
    reveal_strlit("grid");
    reveal_strlit("gridcell");
    reveal_strlit("group");
    reveal_strlit("heading");
    reveal_strlit("img");
    reveal_strlit("link");
    reveal_strlit("list");
    reveal_strlit("listbox");
    reveal_strlit("listitem");
    reveal_strlit("log");
    reveal_strlit("main");
    reveal_strlit("marquee");
    reveal_strlit("math");
    reveal_strlit("menu");
    reveal_strlit("menubar");
    reveal_strlit("menuitem");
    reveal_strlit("menuitemcheckbox");
    reveal_strlit("menuitemradio");
    reveal_strlit("meter");
    reveal_strlit("navigation");
    reveal_strlit("none");
    reveal_strlit("note");
    reveal_strlit("option");
    reveal_strlit("presentation");
    reveal_strlit("progressbar");
    reveal_strlit("radio");
    reveal_strlit("radiogroup");
    reveal_strlit("region");
    reveal_strlit("row");
    reveal_strlit("rowgroup");
    reveal_strlit("rowheader");
    reveal_strlit("scrollbar");
    reveal_strlit("search");
    reveal_strlit("searchbox");
    reveal_strlit("separator");
    reveal_strlit("slider");
    reveal_strlit("spinbutton");
    reveal_strlit("status");
    reveal_strlit("switch");
    reveal_strlit("tab");
    reveal_strlit("table");
    reveal_strlit("tablist");
    reveal_strlit("tabpanel");
    reveal_strlit("term");
    reveal_strlit("textbox");
    reveal_strlit("timer");
    reveal_strlit("toolbar");
    reveal_strlit("tooltip");
    reveal_strlit("tree");
    reveal_strlit("treegrid");
    reveal_strlit("treeitem");
    reveal_strlit("command");
    reveal_strlit("composite");
    reveal_strlit("input");
    reveal_strlit("landmark");
    reveal_strlit("range");
    reveal_strlit("roletype");
    reveal_strlit("section");
    reveal_strlit("sectionhead");
    reveal_strlit("select");
    reveal_strlit("structure");
    reveal_strlit("widget");
    reveal_strlit("window");
    assert("alertdialog"@ != "alert"@) by {
        assert("alertdialog"@.len() != "alert"@.len());
    }
    assert("application"@ != "alert"@) by {
        assert("application"@.len() != "alert"@.len());
    }
    assert("article"@ != "alert"@) by {
        assert("article"@.len() != "alert"@.len());
    }
    assert("banner"@ != "alert"@) by {
        assert("banner"@.len() != "alert"@.len());
    }
    assert("button"@ != "alert"@) by {
        assert("button"@.len() != "alert"@.len());
    }
    assert("cell"@ != "alert"@) by {
        assert("cell"@.len() != "alert"@.len());
    }
    assert("checkbox"@ != "alert"@) by {
        assert("checkbox"@.len() != "alert"@.len());
    }
    assert("columnheader"@ != "alert"@) by {
        assert("columnheader"@.len() != "alert"@.len());
    }
    assert("combobox"@ != "alert"@) by {
        assert("combobox"@.len() != "alert"@.len());
    }
    assert("complementary"@ != "alert"@) by {
        assert("complementary"@.len() != "alert"@.len());
    }
    assert("contentinfo"@ != "alert"@) by {
        assert("contentinfo"@.len() != "alert"@.len());
    }
    assert("definition"@ != "alert"@) by {
        assert("definition"@.len() != "alert"@.len());
    }
    assert("dialog"@ != "alert"@) by {
        assert("dialog"@.len() != "alert"@.len());
    }
    assert("directory"@ != "alert"@) by {
        assert("directory"@.len() != "alert"@.len());
    }
    assert("document"@ != "alert"@) by {
        assert("document"@.len() != "alert"@.len());
    }
    assert("feed"@ != "alert"@) by {
        assert("feed"@.len() != "alert"@.len());
    }
    assert("figure"@ != "alert"@) by {
        assert("figure"@.len() != "alert"@.len());
    }
    assert("form"@ != "alert"@) by {
        assert("form"@.len() != "alert"@.len());
    }
    assert("grid"@ != "alert"@) by {
        assert("grid"@.len() != "alert"@.len());
    }
    assert("gridcell"@ != "alert"@) by {
        assert("gridcell"@.len() != "alert"@.len());
    }
    assert("group"@ != "alert"@) by {
        assert("group"@[0] != "alert"@[0]);
    }
    assert("heading"@ != "alert"@) by {
        assert("heading"@.len() != "alert"@.len());
    }
    assert("img"@ != "alert"@) by {
        assert("img"@.len() != "alert"@.len());
    }
    assert("link"@ != "alert"@) by {
        assert("link"@.len() != "alert"@.len());
    }
    assert("list"@ != "alert"@) by {
        assert("list"@.len() != "alert"@.len());
    }
    assert("listbox"@ != "alert"@) by {
        assert("listbox"@.len() != "alert"@.len());
    }
    assert("listitem"@ != "alert"@) by {
        assert("listitem"@.len() != "alert"@.len());
    }
    assert("log"@ != "alert"@) by {
        assert("log"@.len() != "alert"@.len());
    }
    assert("main"@ != "alert"@) by {
        assert("main"@.len() != "alert"@.len());
    }
    assert("marquee"@ != "alert"@) by {
        assert("marquee"@.len() != "alert"@.len());
    }
    assert("math"@ != "alert"@) by {
        assert("math"@.len() != "alert"@.len());
    }
    assert("menu"@ != "alert"@) by {
        assert("menu"@.len() != "alert"@.len());
    }
    assert("menubar"@ != "alert"@) by {
        assert("menubar"@.len() != "alert"@.len());
    }
    assert("menuitem"@ != "alert"@) by {
        assert("menuitem"@.len() != "alert"@.len());
    }
    assert("menuitemcheckbox"@ != "alert"@) by {
        assert("menuitemcheckbox"@.len() != "alert"@.len());
    }
    assert("menuitemradio"@ != "alert"@) by {
        assert("menuitemradio"@.len() != "alert"@.len());
    }
    assert("meter"@ != "alert"@) by {
        assert("meter"@[0] != "alert"@[0]);
    }
    assert("navigation"@ != "alert"@) by {
        assert("navigation"@.len() != "alert"@.len());
    }
    assert("none"@ != "alert"@) by {
        assert("none"@.len() != "alert"@.len());
    }
    assert("note"@ != "alert"@) by {
        assert("note"@.len() != "alert"@.len());
    }
    assert("option"@ != "alert"@) by {
        assert("option"@.len() != "alert"@.len());
    }
    assert("presentation"@ != "alert"@) by {
        assert("presentation"@.len() != "alert"@.len());
    }
    assert("progressbar"@ != "alert"@) by {
        assert("progressbar"@.len() != "alert"@.len());
    }
    assert("radio"@ != "alert"@) by {
        assert("radio"@[0] != "alert"@[0]);
    }
    assert("radiogroup"@ != "alert"@) by {
        assert("radiogroup"@.len() != "alert"@.len());
    }
    assert("region"@ != "alert"@) by {
        assert("region"@.len() != "alert"@.len());
    }
    assert("row"@ != "alert"@) by {
        assert("row"@.len() != "alert"@.len());
    }
    assert("rowgroup"@ != "alert"@) by {
        assert("rowgroup"@.len() != "alert"@.len());
    }
    assert("rowheader"@ != "alert"@) by {
        assert("rowheader"@.len() != "alert"@.len());
    }
    assert("scrollbar"@ != "alert"@) by {
        assert("scrollbar"@.len() != "alert"@.len());
    }
    assert("search"@ != "alert"@) by {
        assert("search"@.len() != "alert"@.len());
    }
    assert("searchbox"@ != "alert"@) by {
        assert("searchbox"@.len() != "alert"@.len());
    }
    assert("separator"@ != "alert"@) by {
        assert("separator"@.len() != "alert"@.len());
    }
    assert("slider"@ != "alert"@) by {
        assert("slider"@.len() != "alert"@.len());
    }
    assert("spinbutton"@ != "alert"@) by {
        assert("spinbutton"@.len() != "alert"@.len());
    }
    assert("status"@ != "alert"@) by {
        assert("status"@.len() != "alert"@.len());
    }
    assert("switch"@ != "alert"@) by {
        assert("switch"@.len() != "alert"@.len());
    }
    assert("tab"@ != "alert"@) by {
        assert("tab"@.len() != "alert"@.len());
    }
    assert("table"@ != "alert"@) by {
        assert("table"@[0] != "alert"@[0]);
    }
    assert("tablist"@ != "alert"@) by {
        assert("tablist"@.len() != "alert"@.len());
    }
    assert("tabpanel"@ != "alert"@) by {
        assert("tabpanel"@.len() != "alert"@.len());
    }
    assert("term"@ != "alert"@) by {
        assert("term"@.len() != "alert"@.len());
    }
    assert("textbox"@ != "alert"@) by {
        assert("textbox"@.len() != "alert"@.len());
    }
    assert("timer"@ != "alert"@) by {
        assert("timer"@[0] != "alert"@[0]);
    }
    assert("toolbar"@ != "alert"@) by {
        assert("toolbar"@.len() != "alert"@.len());
    }
    assert("tooltip"@ != "alert"@) by {
        assert("tooltip"@.len() != "alert"@.len());
    }
    assert("tree"@ != "alert"@) by {
        assert("tree"@.len() != "alert"@.len());
    }
    assert("treegrid"@ != "alert"@) by {
        assert("treegrid"@.len() != "alert"@.len());
    }
    assert("treeitem"@ != "alert"@) by {
        assert("treeitem"@.len() != "alert"@.len());
    }
    assert("command"@ != "alert"@) by {
        assert("command"@.len() != "alert"@.len());
    }
    assert("composite"@ != "alert"@) by {
        assert("composite"@.len() != "alert"@.len());
    }
    assert("input"@ != "alert"@) by {
        assert("input"@[0] != "alert"@[0]);
    }
    assert("landmark"@ != "alert"@) by {
        assert("landmark"@.len() != "alert"@.len());
    }
    assert("range"@ != "alert"@) by {
        assert("range"@[0] != "alert"@[0]);
    }
    assert("roletype"@ != "alert"@) by {
        assert("roletype"@.len() != "alert"@.len());
    }
    assert("section"@ != "alert"@) by {
        assert("section"@.len() != "alert"@.len());
    }
    assert("sectionhead"@ != "alert"@) by {
        assert("sectionhead"@.len() != "alert"@.len());
    }
    assert("select"@ != "alert"@) by {
        assert("select"@.len() != "alert"@.len());
    }
    assert("structure"@ != "alert"@) by {
        assert("structure"@.len() != "alert"@.len());
    }
    assert("widget"@ != "alert"@) by {
        assert("widget"@.len() != "alert"@.len());
    }
    assert("window"@ != "alert"@) by {
        assert("window"@.len() != "alert"@.len());
    }
}

proof fn role_name_unique_alertdialog(b: Role)
    requires
        b.name_spec() == "alertdialog"@,
    ensures
        b == Role::AlertDialog,
{
    reveal_strlit("alert");
    reveal_strlit("alertdialog");
    reveal_strlit("application");
    reveal_strlit("article");
    reveal_strlit("banner");
    reveal_strlit("button");
    reveal_strlit("cell");
    reveal_strlit("checkbox");
    reveal_strlit("columnheader");
    reveal_strlit("combobox");
    reveal_strlit("complementary");
    reveal_strlit("contentinfo");
    reveal_strlit("definition");
    reveal_strlit("dialog");
    reveal_strlit("directory");
    reveal_strlit("document");
    reveal_strlit("feed");
    reveal_strlit("figure");
    reveal_strlit("form");
    reveal_strlit("grid");
    reveal_strlit("gridcell");
    reveal_strlit("group");
    reveal_strlit("heading");
    reveal_strlit("img");
    reveal_strlit("link");
    reveal_strlit("list");
    reveal_strlit("listbox");
    reveal_strlit("listitem");
    reveal_strlit("log");
    reveal_strlit("main");
    reveal_strlit("marquee");
    reveal_strlit("math");
    reveal_strlit("menu");
    reveal_strlit("menubar");
    reveal_strlit("menuitem");
    reveal_strlit("menuitemcheckbox");
    reveal_strlit("menuitemradio");
    reveal_strlit("meter");
    reveal_strlit("navigation");
    reveal_strlit("none");
    reveal_strlit("note");
    reveal_strlit("option");
    reveal_strlit("presentation");
    reveal_strlit("progressbar");
    reveal_strlit("radio");
    reveal_strlit("radiogroup");
    reveal_strlit("region");
    reveal_strlit("row");
    reveal_strlit("rowgroup");
    reveal_strlit("rowheader");
    reveal_strlit("scrollbar");
    reveal_strlit("search");
    reveal_strlit("searchbox");
    reveal_strlit("separator");
    reveal_strlit("slider");
    reveal_strlit("spinbutton");
    reveal_strlit("status");
    reveal_strlit("switch");
    reveal_strlit("tab");
    reveal_strlit("table");
    reveal_strlit("tablist");
    reveal_strlit("tabpanel");
    reveal_strlit("term");
    reveal_strlit("textbox");
    reveal_strlit("timer");
    reveal_strlit("toolbar");
    reveal_strlit("tooltip");
    reveal_strlit("tree");
    reveal_strlit("treegrid");
    reveal_strlit("treeitem");
    reveal_strlit("command");
    reveal_strlit("composite");
    reveal_strlit("input");
    reveal_strlit("landmark");
    reveal_strlit("range");
    reveal_strlit("roletype");
    reveal_strlit("section");
    reveal_strlit("sectionhead");
    reveal_strlit("select");
    reveal_strlit("structure");
    reveal_strlit("widget");
    reveal_strlit("window");
    assert("alert"@ != "alertdialog"@) by {
        assert("alert"@.len() != "alertdialog"@.len());
    }
    assert("application"@ != "alertdialog"@) by {
        assert("application"@[1] != "alertdialog"@[1]);
    }
    assert("article"@ != "alertdialog"@) by {
        assert("article"@.len() != "alertdialog"@.len());
    }
    assert("banner"@ != "alertdialog"@) by {
        assert("banner"@.len() != "alertdialog"@.len());
    }
    assert("button"@ != "alertdialog"@) by {
        assert("button"@.len() != "alertdialog"@.len());
    }
    assert("cell"@ != "alertdialog"@) by {
        assert("cell"@.len() != "alertdialog"@.len());
    }
    assert("checkbox"@ != "alertdialog"@) by {
        assert("checkbox"@.len() != "alertdialog"@.len());
    }
    assert("columnheader"@ != "alertdialog"@) by {
        assert("columnheader"@.len() != "alertdialog"@.len());
    }
    assert("combobox"@ != "alertdialog"@) by {
        assert("combobox"@.len() != "alertdialog"@.len());
    }
    assert("complementary"@ != "alertdialog"@) by {
        assert("complementary"@.len() != "alertdialog"@.len());
    }
    assert("contentinfo"@ != "alertdialog"@) by {
        assert("contentinfo"@[0] != "alertdialog"@[0]);
    }
    assert("definition"@ != "alertdialog"@) by {
        assert("definition"@.len() != "alertdialog"@.len());
    }
    assert("dialog"@ != "alertdialog"@) by {
        assert("dialog"@.len() != "alertdialog"@.len());
    }
    assert("directory"@ != "alertdialog"@) by {
        assert("directory"@.len() != "alertdialog"@.len());
    }
    assert("document"@ != "alertdialog"@) by {
        assert("document"@.len() != "alertdialog"@.len());
    }
    assert("feed"@ != "alertdialog"@) by {
        assert("feed"@.len() != "alertdialog"@.len());
    }
    assert("figure"@ != "alertdialog"@) by {
        assert("figure"@.len() != "alertdialog"@.len());
    }
    assert("form"@ != "alertdialog"@) by {
        assert("form"@.len() != "alertdialog"@.len());
    }
    assert("grid"@ != "alertdialog"@) by {
        assert("grid"@.len() != "alertdialog"@.len());
    }
    assert("gridcell"@ != "alertdialog"@) by {
        assert("gridcell"@.len() != "alertdialog"@.len());
    }
    assert("group"@ != "alertdialog"@) by {
        assert("group"@.len() != "alertdialog"@.len());
    }
    assert("heading"@ != "alertdialog"@) by {
        assert("heading"@.len() != "alertdialog"@.len());
    }
    assert("img"@ != "alertdialog"@) by {
        assert("img"@.len() != "alertdialog"@.len());
    }
    assert("link"@ != "alertdialog"@) by {
        assert("link"@.len() != "alertdialog"@.len());
    }
    assert("list"@ != "alertdialog"@) by {
        assert("list"@.len() != "alertdialog"@.len());
    }
    assert("listbox"@ != "alertdialog"@) by {
        assert("listbox"@.len() != "alertdialog"@.len());
    }
    assert("listitem"@ != "alertdialog"@) by {
        assert("listitem"@.len() != "alertdialog"@.len());
    }
    assert("log"@ != "alertdialog"@) by {
        assert("log"@.len() != "alertdialog"@.len());
    }
    assert("main"@ != "alertdialog"@) by {
        assert("main"@.len() != "alertdialog"@.len());
    }
    assert("marquee"@ != "alertdialog"@) by {
        assert("marquee"@.len() != "alertdialog"@.len());
    }
    assert("math"@ != "alertdialog"@) by {
        assert("math"@.len() != "alertdialog"@.len());
    }
    assert("menu"@ != "alertdialog"@) by {
        assert("menu"@.len() != "alertdialog"@.len());
    }
    assert("menubar"@ != "alertdialog"@) by {
        assert("menubar"@.len() != "alertdialog"@.len());
    }
    assert("menuitem"@ != "alertdialog"@) by {
        assert("menuitem"@.len() != "alertdialog"@.len());
    }
    assert("menuitemcheckbox"@ != "alertdialog"@) by {
        assert("menuitemcheckbox"@.len() != "alertdialog"@.len());
    }
    assert("menuitemradio"@ != "alertdialog"@) by {
        assert("menuitemradio"@.len() != "alertdialog"@.len());
    }
    assert("meter"@ != "alertdialog"@) by {
        assert("meter"@.len() != "alertdialog"@.len());
    }
    assert("navigation"@ != "alertdialog"@) by {
        assert("navigation"@.len() != "alertdialog"@.len());
    }
    assert("none"@ != "alertdialog"@) by {
        assert("none"@.len() != "alertdialog"@.len());
    }
    assert("note"@ != "alertdialog"@) by {
        assert("note"@.len() != "alertdialog"@.len());
    }
    assert("option"@ != "alertdialog"@) by {
        assert("option"@.len() != "alertdialog"@.len());
    }
    assert("presentation"@ != "alertdialog"@) by {
        assert("presentation"@.len() != "alertdialog"@.len());
    }
    assert("progressbar"@ != "alertdialog"@) by {
        assert("progressbar"@[0] != "alertdialog"@[0]);
    }
    assert("radio"@ != "alertdialog"@) by {
        assert("radio"@.len() != "alertdialog"@.len());
    }
    assert("radiogroup"@ != "alertdialog"@) by {
        assert("radiogroup"@.len() != "alertdialog"@.len());
    }
    assert("region"@ != "alertdialog"@) by {
        assert("region"@.len() != "alertdialog"@.len());
    }
    assert("row"@ != "alertdialog"@) by {
        assert("row"@.len() != "alertdialog"@.len());
    }
    assert("rowgroup"@ != "alertdialog"@) by {
        assert("rowgroup"@.len() != "alertdialog"@.len());
    }
    assert("rowheader"@ != "alertdialog"@) by {
        assert("rowheader"@.len() != "alertdialog"@.len());
    }
    assert("scrollbar"@ != "alertdialog"@) by {
        assert("scrollbar"@.len() != "alertdialog"@.len());
    }
    assert("search"@ != "alertdialog"@) by {
        assert("search"@.len() != "alertdialog"@.len());
    }
    assert("searchbox"@ != "alertdialog"@) by {
        assert("searchbox"@.len() != "alertdialog"@.len());
    }
    assert("separator"@ != "alertdialog"@) by {
        assert("separator"@.len() != "alertdialog"@.len());
    }
    assert("slider"@ != "alertdialog"@) by {
        assert("slider"@.len() != "alertdialog"@.len());
    }
    assert("spinbutton"@ != "alertdialog"@) by {
        assert("spinbutton"@.len() != "alertdialog"@.len());
    }
    assert("status"@ != "alertdialog"@) by {
        assert("status"@.len() != "alertdialog"@.len());
    }
    assert("switch"@ != "alertdialog"@) by {
        assert("switch"@.len() != "alertdialog"@.len());
    }
    assert("tab"@ != "alertdialog"@) by {
        assert("tab"@.len() != "alertdialog"@.len());
    }
    assert("table"@ != "alertdialog"@) by {
        assert("table"@.len() != "alertdialog"@.len());
    }
    assert("tablist"@ != "alertdialog"@) by {
        assert("tablist"@.len() != "alertdialog"@.len());
    }
    assert("tabpanel"@ != "alertdialog"@) by {
        assert("tabpanel"@.len() != "alertdialog"@.len());
    }
    assert("term"@ != "alertdialog"@) by {
        assert("term"@.len() != "alertdialog"@.len());
    }
    assert("textbox"@ != "alertdialog"@) by {
        assert("textbox"@.len() != "alertdialog"@.len());
    }
    assert("timer"@ != "alertdialog"@) by {
        assert("timer"@.len() != "alertdialog"@.len());
    }
    assert("toolbar"@ != "alertdialog"@) by {
        assert("toolbar"@.len() != "alertdialog"@.len());
    }
    assert("tooltip"@ != "alertdialog"@) by {
        assert("tooltip"@.len() != "alertdialog"@.len());
    }
    assert("tree"@ != "alertdialog"@) by {
        assert("tree"@.len() != "alertdialog"@.len());
    }
    assert("treegrid"@ != "alertdialog"@) by {
        assert("treegrid"@.len() != "alertdialog"@.len());
    }
    assert("treeitem"@ != "alertdialog"@) by {
        assert("treeitem"@.len() != "alertdialog"@.len());
    }
    assert("command"@ != "alertdialog"@) by {
        assert("command"@.len() != "alertdialog"@.len());
    }
    assert("composite"@ != "alertdialog"@) by {
        assert("composite"@.len() != "alertdialog"@.len());
    }
    assert("input"@ != "alertdialog"@) by {
        assert("input"@.len() != "alertdialog"@.len());
    }
    assert("landmark"@ != "alertdialog"@) by {
        assert("landmark"@.len() != "alertdialog"@.len());
    }
    assert("range"@ != "alertdialog"@) by {
        assert("range"@.len() != "alertdialog"@.len());
    }
    assert("roletype"@ != "alertdialog"@) by {
        assert("roletype"@.len() != "alertdialog"@.len());
    }
    assert("section"@ != "alertdialog"@) by {
        assert("section"@.len() != "alertdialog"@.len());
    }
    assert("sectionhead"@ != "alertdialog"@) by {
        assert("sectionhead"@[0] != "alertdialog"@[0]);
    }
    assert("select"@ != "alertdialog"@) by {
        assert("select"@.len() != "alertdialog"@.len());
    }
    assert("structure"@ != "alertdialog"@) by {
        assert("structure"@.len() != "alertdialog"@.len());
    }
    assert("widget"@ != "alertdialog"@) by {
        assert("widget"@.len() != "alertdialog"@.len());
    }
    assert("window"@ != "alertdialog"@) by {
        assert("window"@.len() != "alertdialog"@.len());
    }
}

proof fn role_name_unique_application(b: Role)
    requires
        b.name_spec() == "application"@,
    ensures
        b == Role::Application,
{
    reveal_strlit("alert");
    reveal_strlit("alertdialog");
    reveal_strlit("application");
    reveal_strlit("article");
    reveal_strlit("banner");
    reveal_strlit("button");
    reveal_strlit("cell");
    reveal_strlit("checkbox");
    reveal_strlit("columnheader");
    reveal_strlit("combobox");
    reveal_strlit("complementary");
    reveal_strlit("contentinfo");
    reveal_strlit("definition");
    reveal_strlit("dialog");
    reveal_strlit("directory");
    reveal_strlit("document");
    reveal_strlit("feed");
    reveal_strlit("figure");
    reveal_strlit("form");
    reveal_strlit("grid");
    reveal_strlit("gridcell");
    reveal_strlit("group");
    reveal_strlit("heading");
    reveal_strlit("img");
    reveal_strlit("link");
    reveal_strlit("list");
    reveal_strlit("listbox");
    reveal_strlit("listitem");
    reveal_strlit("log");
    reveal_strlit("main");
    reveal_strlit("marquee");
    reveal_strlit("math");
    reveal_strlit("menu");
    reveal_strlit("menubar");
    reveal_strlit("menuitem");
    reveal_strlit("menuitemcheckbox");
    reveal_strlit("menuitemradio");
    reveal_strlit("meter");
    reveal_strlit("navigation");
    reveal_strlit("none");
    reveal_strlit("note");
    reveal_strlit("option");
    reveal_strlit("presentation");
    reveal_strlit("progressbar");
    reveal_strlit("radio");
    reveal_strlit("radiogroup");
    reveal_strlit("region");
    reveal_strlit("row");
    reveal_strlit("rowgroup");
    reveal_strlit("rowheader");
    reveal_strlit("scrollbar");
    reveal_strlit("search");
    reveal_strlit("searchbox");
    reveal_strlit("separator");
    reveal_strlit("slider");
    reveal_strlit("spinbutton");
    reveal_strlit("status");
    reveal_strlit("switch");
    reveal_strlit("tab");
    reveal_strlit("table");
    reveal_strlit("tablist");
    reveal_strlit("tabpanel");
    reveal_strlit("term");
    reveal_strlit("textbox");
    reveal_strlit("timer");
    reveal_strlit("toolbar");
    reveal_strlit("tooltip");
    reveal_strlit("tree");
    reveal_strlit("treegrid");
    reveal_strlit("treeitem");
    reveal_strlit("command");
    reveal_strlit("composite");
    reveal_strlit("input");
    reveal_strlit("landmark");
    reveal_strlit("range");
    reveal_strlit("roletype");
    reveal_strlit("section");
    reveal_strlit("sectionhead");
    reveal_strlit("select");
    reveal_strlit("structure");
    reveal_strlit("widget");
    reveal_strlit("window");
    assert("alert"@ != "application"@) by {
        assert("alert"@.len() != "application"@.len());
    }
    assert("alertdialog"@ != "application"@) by {
        assert("alertdialog"@[1] != "application"@[1]);
    }
    assert("article"@ != "application"@) by {
        assert("article"@.len() != "application"@.len());
    }
    assert("banner"@ != "application"@) by {
        assert("banner"@.len() != "application"@.len());
    }
    assert("button"@ != "application"@) by {
        assert("button"@.len() != "application"@.len());
    }
    assert("cell"@ != "application"@) by {
        assert("cell"@.len() != "application"@.len());
    }
    assert("checkbox"@ != "application"@) by {
        assert("checkbox"@.len() != "application"@.len());
    }
    assert("columnheader"@ != "application"@) by {
        assert("columnheader"@.len() != "application"@.len());
    }
    assert("combobox"@ != "application"@) by {
        assert("combobox"@.len() != "application"@.len());
    }
    assert("complementary"@ != "application"@) by {
        assert("complementary"@.len() != "application"@.len());
    }
    assert("contentinfo"@ != "application"@) by {
        assert("contentinfo"@[0] != "application"@[0]);
    }
    assert("definition"@ != "application"@) by {
        assert("definition"@.len() != "application"@.len());
    }
    assert("dialog"@ != "application"@) by {
        assert("dialog"@.len() != "application"@.len());
    }
    assert("directory"@ != "application"@) by {
        assert("directory"@.len() != "application"@.len());
    }
    assert("document"@ != "application"@) by {
        assert("document"@.len() != "application"@.len());
    }
    assert("feed"@ != "application"@) by {
        assert("feed"@.len() != "application"@.len());
    }
    assert("figure"@ != "application"@) by {
        assert("figure"@.len() != "application"@.len());
    }
    assert("form"@ != "application"@) by {
        assert("form"@.len() != "application"@.len());
    }
    assert("grid"@ != "application"@) by {
        assert("grid"@.len() != "application"@.len());
    }
    assert("gridcell"@ != "application"@) by {
        assert("gridcell"@.len() != "application"@.len());
    }
    assert("group"@ != "application"@) by {
        assert("group"@.len() != "application"@.len());
    }
    assert("heading"@ != "application"@) by {
        assert("heading"@.len() != "application"@.len());
    }
    assert("img"@ != "application"@) by {
        assert("img"@.len() != "application"@.len());
    }
    assert("link"@ != "application"@) by {
        assert("link"@.len() != "application"@.len());
    }
    assert("list"@ != "application"@) by {
        assert("list"@.len() != "application"@.len());
    }
    assert("listbox"@ != "application"@) by {
        assert("listbox"@.len() != "application"@.len());
    }
    assert("listitem"@ != "application"@) by {
        assert("listitem"@.len() != "application"@.len());
    }
    assert("log"@ != "application"@) by {
        assert("log"@.len() != "application"@.len());
    }
    assert("main"@ != "application"@) by {
        assert("main"@.len() != "application"@.len());
    }
    assert("marquee"@ != "application"@) by {
        assert("marquee"@.len() != "application"@.len());
    }
    assert("math"@ != "application"@) by {
        assert("math"@.len() != "application"@.len());
    }
    assert("menu"@ != "application"@) by {
        assert("menu"@.len() != "application"@.len());
    }
    assert("menubar"@ != "application"@) by {
        assert("menubar"@.len() != "application"@.len());
    }
    assert("menuitem"@ != "application"@) by {
        assert("menuitem"@.len() != "application"@.len());
    }
    assert("menuitemcheckbox"@ != "application"@) by {
        assert("menuitemcheckbox"@.len() != "application"@.len());
    }
    assert("menuitemradio"@ != "application"@) by {
        assert("menuitemradio"@.len() != "application"@.len());
    }
    assert("meter"@ != "application"@) by {
        assert("meter"@.len() != "application"@.len());
    }
    assert("navigation"@ != "application"@) by {
        assert("navigation"@.len() != "application"@.len());
    }
    assert("none"@ != "application"@) by {
        assert("none"@.len() != "application"@.len());
    }
    assert("note"@ != "application"@) by {
        assert("note"@.len() != "application"@.len());
    }
    assert("option"@ != "application"@) by {
        assert("option"@.len() != "application"@.len());
    }
    assert("presentation"@ != "application"@) by {
        assert("presentation"@.len() != "application"@.len());
    }
    assert("progressbar"@ != "application"@) by {
        assert("progressbar"@[0] != "application"@[0]);
    }
    assert("radio"@ != "application"@) by {
        assert("radio"@.len() != "application"@.len());
    }
    assert("radiogroup"@ != "application"@) by {
        assert("radiogroup"@.len() != "application"@.len());
    }
    assert("region"@ != "application"@) by {
        assert("region"@.len() != "application"@.len());
    }
    assert("row"@ != "application"@) by {
        assert("row"@.len() != "application"@.len());
    }
    assert("rowgroup"@ != "application"@) by {
        assert("rowgroup"@.len() != "application"@.len());
    }
    assert("rowheader"@ != "application"@) by {
        assert("rowheader"@.len() != "application"@.len());
    }
    assert("scrollbar"@ != "application"@) by {
        assert("scrollbar"@.len() != "application"@.len());
    }
    assert("search"@ != "application"@) by {
        assert("search"@.len() != "application"@.len());
    }
    assert("searchbox"@ != "application"@) by {
        assert("searchbox"@.len() != "application"@.len());
    }
    assert("separator"@ != "application"@) by {
        assert("separator"@.len() != "application"@.len());
    }
    assert("slider"@ != "application"@) by {
        assert("slider"@.len() != "application"@.len());
    }
    assert("spinbutton"@ != "application"@) by {
        assert("spinbutton"@.len() != "application"@.len());
    }
    assert("status"@ != "application"@) by {
        assert("status"@.len() != "application"@.len());
    }
    assert("switch"@ != "application"@) by {
        assert("switch"@.len() != "application"@.len());
    }
    assert("tab"@ != "application"@) by {
        assert("tab"@.len() != "application"@.len());
    }
    assert("table"@ != "application"@) by {
        assert("table"@.len() != "application"@.len());
    }
    assert("tablist"@ != "application"@) by {
        assert("tablist"@.len() != "application"@.len());
    }
    assert("tabpanel"@ != "application"@) by {
        assert("tabpanel"@.len() != "application"@.len());
    }
    assert("term"@ != "application"@) by {
        assert("term"@.len() != "application"@.len());
    }
    assert("textbox"@ != "application"@) by {
        assert("textbox"@.len() != "application"@.len());
    }
    assert("timer"@ != "application"@) by {
        assert("timer"@.len() != "application"@.len());
    }
    assert("toolbar"@ != "application"@) by {
        assert("toolbar"@.len() != "application"@.len());
    }
    assert("tooltip"@ != "application"@) by {
        assert("tooltip"@.len() != "application"@.len());
    }
    assert("tree"@ != "application"@) by {
        assert("tree"@.len() != "application"@.len());
    }
    assert("treegrid"@ != "application"@) by {
        assert("treegrid"@.len() != "application"@.len());
    }
    assert("treeitem"@ != "application"@) by {
        assert("treeitem"@.len() != "application"@.len());
    }
    assert("command"@ != "application"@) by {
        assert("command"@.len() != "application"@.len());
    }
    assert("composite"@ != "application"@) by {
        assert("composite"@.len() != "application"@.len());
    }
    assert("input"@ != "application"@) by {
        assert("input"@.len() != "application"@.len());
    }
    assert("landmark"@ != "application"@) by {
        assert("landmark"@.len() != "application"@.len());
    }
    assert("range"@ != "application"@) by {
        assert("range"@.len() != "application"@.len());
    }
    assert("roletype"@ != "application"@) by {
        assert("roletype"@.len() != "application"@.len());
    }
    assert("section"@ != "application"@) by {
        assert("section"@.len() != "application"@.len());
    }
    assert("sectionhead"@ != "application"@) by {
        assert("sectionhead"@[0] != "application"@[0]);
    }
    assert("select"@ != "application"@) by {
        assert("select"@.len() != "application"@.len());
    }
    assert("structure"@ != "application"@) by {
        assert("structure"@.len() != "application"@.len());
    }
    assert("widget"@ != "application"@) by {
        assert("widget"@.len() != "application"@.len());
    }
    assert("window"@ != "application"@) by {
        assert("window"@.len() != "application"@.len());
    }
}

proof fn role_name_unique_article(b: Role)
    requires
        b.name_spec() == "article"@,
    ensures
        b == Role::Article,
{
    reveal_strlit("alert");
    reveal_strlit("alertdialog");
    reveal_strlit("application");
    reveal_strlit("article");
    reveal_strlit("banner");
    reveal_strlit("button");
    reveal_strlit("cell");
    reveal_strlit("checkbox");
    reveal_strlit("columnheader");
    reveal_strlit("combobox");
    reveal_strlit("complementary");
    reveal_strlit("contentinfo");
    reveal_strlit("definition");
    reveal_strlit("dialog");
    reveal_strlit("directory");
    reveal_strlit("document");
    reveal_strlit("feed");
    reveal_strlit("figure");
    reveal_strlit("form");
    reveal_strlit("grid");
    reveal_strlit("gridcell");
    reveal_strlit("group");
    reveal_strlit("heading");
    reveal_strlit("img");
    reveal_strlit("link");
    reveal_strlit("list");
    reveal_strlit("listbox");
    reveal_strlit("listitem");
    reveal_strlit("log");
    reveal_strlit("main");
    reveal_strlit("marquee");
    reveal_strlit("math");
    reveal_strlit("menu");
    reveal_strlit("menubar");
    reveal_strlit("menuitem");
    reveal_strlit("menuitemcheckbox");
    reveal_strlit("menuitemradio");
    reveal_strlit("meter");
    reveal_strlit("navigation");
    reveal_strlit("none");
    reveal_strlit("note");
    reveal_strlit("option");
    reveal_strlit("presentation");
    reveal_strlit("progressbar");
    reveal_strlit("radio");
    reveal_strlit("radiogroup");
    reveal_strlit("region");
    reveal_strlit("row");
    reveal_strlit("rowgroup");
    reveal_strlit("rowheader");
    reveal_strlit("scrollbar");
    reveal_strlit("search");
    reveal_strlit("searchbox");
    reveal_strlit("separator");
    reveal_strlit("slider");
    reveal_strlit("spinbutton");
    reveal_strlit("status");
    reveal_strlit("switch");
    reveal_strlit("tab");
    reveal_strlit("table");
    reveal_strlit("tablist");
    reveal_strlit("tabpanel");
    reveal_strlit("term");
    reveal_strlit("textbox");
    reveal_strlit("timer");
    reveal_strlit("toolbar");
    reveal_strlit("tooltip");
    reveal_strlit("tree");
    reveal_strlit("treegrid");
    reveal_strlit("treeitem");
    reveal_strlit("command");
    reveal_strlit("composite");
    reveal_strlit("input");
    reveal_strlit("landmark");
    reveal_strlit("range");
    reveal_strlit("roletype");
    reveal_strlit("section");
    reveal_strlit("sectionhead");
    reveal_strlit("select");
    reveal_strlit("structure");
    reveal_strlit("widget");
    reveal_strlit("window");
    assert("alert"@ != "article"@) by {
        assert("alert"@.len() != "article"@.len());
    }
    assert("alertdialog"@ != "article"@) by {
        assert("alertdialog"@.len() != "article"@.len());
    }
    assert("application"@ != "article"@) by {
        assert("application"@.len() != "article"@.len());
    }
    assert("banner"@ != "article"@) by {
        assert("banner"@.len() != "article"@.len());
    }
    assert("button"@ != "article"@) by {
        assert("button"@.len() != "article"@.len());
    }
    assert("cell"@ != "article"@) by {
        assert("cell"@.len() != "article"@.len());
    }
    assert("checkbox"@ != "article"@) by {
        assert("checkbox"@.len() != "article"@.len());
    }
    assert("columnheader"@ != "article"@) by {
        assert("columnheader"@.len() != "article"@.len());
    }
    assert("combobox"@ != "article"@) by {
        assert("combobox"@.len() != "article"@.len());
    }
    assert("complementary"@ != "article"@) by {
        assert("complementary"@.len() != "article"@.len());
    }
    assert("contentinfo"@ != "article"@) by {
        assert("contentinfo"@.len() != "article"@.len());
    }
    assert("definition"@ != "article"@) by {
        assert("definition"@.len() != "article"@.len());
    }
    assert("dialog"@ != "article"@) by {
        assert("dialog"@.len() != "article"@.len());
    }
    assert("directory"@ != "article"@) by {
        assert("directory"@.len() != "article"@.len());
    }
    assert("document"@ != "article"@) by {
        assert("document"@.len() != "article"@.len());
    }
    assert("feed"@ != "article"@) by {
        assert("feed"@.len() != "article"@.len());
    }
    assert("figure"@ != "article"@) by {
        assert("figure"@.len() != "article"@.len());
    }
    assert("form"@ != "article"@) by {
        assert("form"@.len() != "article"@.len());
    }
    assert("grid"@ != "article"@) by {
        assert("grid"@.len() != "article"@.len());
    }
    assert("gridcell"@ != "article"@) by {
        assert("gridcell"@.len() != "article"@.len());
    }
    assert("group"@ != "article"@) by {
        assert("group"@.len() != "article"@.len());
    }
    assert("heading"@ != "article"@) by {
        assert("heading"@[0] != "article"@[0]);
    }
    assert("img"@ != "article"@) by {
        assert("img"@.len() != "article"@.len());
    }
    assert("link"@ != "article"@) by {
        assert("link"@.len() != "article"@.len());
    }
    assert("list"@ != "article"@) by {
        assert("list"@.len() != "article"@.len());
    }
    assert("listbox"@ != "article"@) by {
        assert("listbox"@[0] != "article"@[0]);
    }
    assert("listitem"@ != "article"@) by {
        assert("listitem"@.len() != "article"@.len());
    }
    assert("log"@ != "article"@) by {
        assert("log"@.len() != "article"@.len());
    }
    assert("main"@ != "article"@) by {
        assert("main"@.len() != "article"@.len());
    }
    assert("marquee"@ != "article"@) by {
        assert("marquee"@[0] != "article"@[0]);
    }
    assert("math"@ != "article"@) by {
        assert("math"@.len() != "article"@.len());
    }
    assert("menu"@ != "article"@) by {
        assert("menu"@.len() != "article"@.len());
    }
    assert("menubar"@ != "article"@) by {
        assert("menubar"@[0] != "article"@[0]);
    }
    assert("menuitem"@ != "article"@) by {
        assert("menuitem"@.len() != "article"@.len());
    }
    assert("menuitemcheckbox"@ != "article"@) by {
        assert("menuitemcheckbox"@.len() != "article"@.len());
    }
    assert("menuitemradio"@ != "article"@) by {
        assert("menuitemradio"@.len() != "article"@.len());
    }
    assert("meter"@ != "article"@) by {
        assert("meter"@.len() != "article"@.len());
    }
    assert("navigation"@ != "article"@) by {
        assert("navigation"@.len() != "article"@.len());
    }
    assert("none"@ != "article"@) by {
        assert("none"@.len() != "article"@.len());
    }
    assert("note"@ != "article"@) by {
        assert("note"@.len() != "article"@.len());
    }
    assert("option"@ != "article"@) by {
        assert("option"@.len() != "article"@.len());
    }
    assert("presentation"@ != "article"@) by {
        assert("presentation"@.len() != "article"@.len());
    }
    assert("progressbar"@ != "article"@) by {
        assert("progressbar"@.len() != "article"@.len());
    }
    assert("radio"@ != "article"@) by {
        assert("radio"@.len() != "article"@.len());
    }
    assert("radiogroup"@ != "article"@) by {
        assert("radiogroup"@.len() != "article"@.len());
    }
    assert("region"@ != "article"@) by {
        assert("region"@.len() != "article"@.len());
    }
    assert("row"@ != "article"@) by {
        assert("row"@.len() != "article"@.len());
    }
    assert("rowgroup"@ != "article"@) by {
        assert("rowgroup"@.len() != "article"@.len());
    }
    assert("rowheader"@ != "article"@) by {
        assert("rowheader"@.len() != "article"@.len());
    }
    assert("scrollbar"@ != "article"@) by {
        assert("scrollbar"@.len() != "article"@.len());
    }
    assert("search"@ != "article"@) by {
        assert("search"@.len() != "article"@.len());
    }
    assert("searchbox"@ != "article"@) by {
        assert("searchbox"@.len() != "article"@.len());
    }
    assert("separator"@ != "article"@) by {
        assert("separator"@.len() != "article"@.len());
    }
    assert("slider"@ != "article"@) by {
        assert("slider"@.len() != "article"@.len());
    }
    assert("spinbutton"@ != "article"@) by {
        assert("spinbutton"@.len() != "article"@.len());
    }
    assert("status"@ != "article"@) by {
        assert("status"@.len() != "article"@.len());
    }
    assert("switch"@ != "article"@) by {
        assert("switch"@.len() != "article"@.len());
    }
    assert("tab"@ != "article"@) by {
        assert("tab"@.len() != "article"@.len());
    }
    assert("table"@ != "article"@) by {
        assert("table"@.len() != "article"@.len());
    }
    assert("tablist"@ != "article"@) by {
        assert("tablist"@[0] != "article"@[0]);
    }
    assert("tabpanel"@ != "article"@) by {
        assert("tabpanel"@.len() != "article"@.len());
    }
    assert("term"@ != "article"@) by {
        assert("term"@.len() != "article"@.len());
    }
    assert("textbox"@ != "article"@) by {
        assert("textbox"@[0] != "article"@[0]);
    }
    assert("timer"@ != "article"@) by {
        assert("timer"@.len() != "article"@.len());
    }
    assert("toolbar"@ != "article"@) by {
        assert("toolbar"@[0] != "article"@[0]);
    }
    assert("tooltip"@ != "article"@) by {
        assert("tooltip"@[0] != "article"@[0]);
    }
    assert("tree"@ != "article"@) by {
        assert("tree"@.len() != "article"@.len());
    }
    assert("treegrid"@ != "article"@) by {
        assert("treegrid"@.len() != "article"@.len());
    }
    assert("treeitem"@ != "article"@) by {
        assert("treeitem"@.len() != "article"@.len());
    }
    assert("command"@ != "article"@) by {
        assert("command"@[0] != "article"@[0]);
    }
    assert("composite"@ != "article"@) by {
        assert("composite"@.len() != "article"@.len());
    }
    assert("input"@ != "article"@) by {
        assert("input"@.len() != "article"@.len());
    }
    assert("landmark"@ != "article"@) by {
        assert("landmark"@.len() != "article"@.len());
    }
    assert("range"@ != "article"@) by {
        assert("range"@.len() != "article"@.len());
    }
    assert("roletype"@ != "article"@) by {
        assert("roletype"@.len() != "article"@.len());
    }
    assert("section"@ != "article"@) by {
        assert("section"@[0] != "article"@[0]);
    }
    assert("sectionhead"@ != "article"@) by {
        assert("sectionhead"@.len() != "article"@.len());
    }
    assert("select"@ != "article"@) by {
        assert("select"@.len() != "article"@.len());
    }
    assert("structure"@ != "article"@) by {
        assert("structure"@.len() != "article"@.len());
    }
    assert("widget"@ != "article"@) by {
        assert("widget"@.len() != "article"@.len());
    }
    assert("window"@ != "article"@) by {
        assert("window"@.len() != "article"@.len());
    }
}

proof fn role_name_unique_banner(b: Role)
    requires
        b.name_spec() == "banner"@,
    ensures
        b == Role::Banner,
{
    reveal_strlit("alert");
    reveal_strlit("alertdialog");
    reveal_strlit("application");
    reveal_strlit("article");
    reveal_strlit("banner");
    reveal_strlit("button");
    reveal_strlit("cell");
    reveal_strlit("checkbox");
    reveal_strlit("columnheader");
    reveal_strlit("combobox");
    reveal_strlit("complementary");
    reveal_strlit("contentinfo");
    reveal_strlit("definition");
    reveal_strlit("dialog");
    reveal_strlit("directory");
    reveal_strlit("document");
    reveal_strlit("feed");
    reveal_strlit("figure");
    reveal_strlit("form");
    reveal_strlit("grid");
    reveal_strlit("gridcell");
    reveal_strlit("group");
    reveal_strlit("heading");
    reveal_strlit("img");
    reveal_strlit("link");
    reveal_strlit("list");
    reveal_strlit("listbox");
    reveal_strlit("listitem");
    reveal_strlit("log");
    reveal_strlit("main");
    reveal_strlit("marquee");
    reveal_strlit("math");
    reveal_strlit("menu");
    reveal_strlit("menubar");
    reveal_strlit("menuitem");
    reveal_strlit("menuitemcheckbox");
    reveal_strlit("menuitemradio");
    reveal_strlit("meter");
    reveal_strlit("navigation");
    reveal_strlit("none");
    reveal_strlit("note");
    reveal_strlit("option");
    reveal_strlit("presentation");
    reveal_strlit("progressbar");
    reveal_strlit("radio");
    reveal_strlit("radiogroup");
    reveal_strlit("region");
    reveal_strlit("row");
    reveal_strlit("rowgroup");
    reveal_strlit("rowheader");
    reveal_strlit("scrollbar");
    reveal_strlit("search");
    reveal_strlit("searchbox");
    reveal_strlit("separator");
    reveal_strlit("slider");
    reveal_strlit("spinbutton");
    reveal_strlit("status");
    reveal_strlit("switch");
    reveal_strlit("tab");
    reveal_strlit("table");
    reveal_strlit("tablist");
    reveal_strlit("tabpanel");
    reveal_strlit("term");
    reveal_strlit("textbox");
    reveal_strlit("timer");
    reveal_strlit("toolbar");
    reveal_strlit("tooltip");
    reveal_strlit("tree");
    reveal_strlit("treegrid");
    reveal_strlit("treeitem");
    reveal_strlit("command");
    reveal_strlit("composite");
    reveal_strlit("input");
    reveal_strlit("landmark");
    reveal_strlit("range");
    reveal_strlit("roletype");
    reveal_strlit("section");
    reveal_strlit("sectionhead");
    reveal_strlit("select");
    reveal_strlit("structure");
    reveal_strlit("widget");
    reveal_strlit("window");
    assert("alert"@ != "banner"@) by {
        assert("alert"@.len() != "banner"@.len());
    }
    assert("alertdialog"@ != "banner"@) by {
        assert("alertdialog"@.len() != "banner"@.len());
    }
    assert("application"@ != "banner"@) by {
        assert("application"@.len() != "banner"@.len());
    }
    assert("article"@ != "banner"@) by {
        assert("article"@.len() != "banner"@.len());
    }
    assert("button"@ != "banner"@) by {
        assert("button"@[1] != "banner"@[1]);
    }
    assert("cell"@ != "banner"@) by {
        assert("cell"@.len() != "banner"@.len());
    }
    assert("checkbox"@ != "banner"@) by {
        assert("checkbox"@.len() != "banner"@.len());
    }
    assert("columnheader"@ != "banner"@) by {
        assert("columnheader"@.len() != "banner"@.len());
    }
    assert("combobox"@ != "banner"@) by {
        assert("combobox"@.len() != "banner"@.len());
    }
    assert("complementary"@ != "banner"@) by {
        assert("complementary"@.len() != "banner"@.len());
    }
    assert("contentinfo"@ != "banner"@) by {
        assert("contentinfo"@.len() != "banner"@.len());
    }
    assert("definition"@ != "banner"@) by {
        assert("definition"@.len() != "banner"@.len());
    }
    assert("dialog"@ != "banner"@) by {
        assert("dialog"@[0] != "banner"@[0]);
    }
    assert("directory"@ != "banner"@) by {
        assert("directory"@.len() != "banner"@.len());
    }
    assert("document"@ != "banner"@) by {
        assert("document"@.len() != "banner"@.len());
    }
    assert("feed"@ != "banner"@) by {
        assert("feed"@.len() != "banner"@.len());
    }
    assert("figure"@ != "banner"@) by {
        assert("figure"@[0] != "banner"@[0]);
    }
    assert("form"@ != "banner"@) by {
        assert("form"@.len() != "banner"@.len());
    }
    assert("grid"@ != "banner"@) by {
        assert("grid"@.len() != "banner"@.len());
    }
    assert("gridcell"@ != "banner"@) by {
        assert("gridcell"@.len() != "banner"@.len());
    }
    assert("group"@ != "banner"@) by {
        assert("group"@.len() != "banner"@.len());
    }
    assert("heading"@ != "banner"@) by {
        assert("heading"@.len() != "banner"@.len());
    }
    assert("img"@ != "banner"@) by {
        assert("img"@.len() != "banner"@.len());
    }
    assert("link"@ != "banner"@) by {
        assert("link"@.len() != "banner"@.len());
    }
    assert("list"@ != "banner"@) by {
        assert("list"@.len() != "banner"@.len());
    }
    assert("listbox"@ != "banner"@) by {
        assert("listbox"@.len() != "banner"@.len());
    }
    assert("listitem"@ != "banner"@) by {
        assert("listitem"@.len() != "banner"@.len());
    }
    assert("log"@ != "banner"@) by {
        assert("log"@.len() != "banner"@.len());
    }
    assert("main"@ != "banner"@) by {
        assert("main"@.len() != "banner"@.len());
    }
    assert("marquee"@ != "banner"@) by {
        assert("marquee"@.len() != "banner"@.len());
    }
    assert("math"@ != "banner"@) by {
        assert("math"@.len() != "banner"@.len());
    }
    assert("menu"@ != "banner"@) by {
        assert("menu"@.len() != "banner"@.len());
    }
    assert("menubar"@ != "banner"@) by {
        assert("menubar"@.len() != "banner"@.len());
    }
    assert("menuitem"@ != "banner"@) by {
        assert("menuitem"@.len() != "banner"@.len());
    }
    assert("menuitemcheckbox"@ != "banner"@) by {
        assert("menuitemcheckbox"@.len() != "banner"@.len());
    }
    assert("menuitemradio"@ != "banner"@) by {
        assert("menuitemradio"@.len() != "banner"@.len());
    }
    assert("meter"@ != "banner"@) by {
        assert("meter"@.len() != "banner"@.len());
    }
    assert("navigation"@ != "banner"@) by {
        assert("navigation"@.len() != "banner"@.len());
    }
    assert("none"@ != "banner"@) by {
        assert("none"@.len() != "banner"@.len());
    }
    assert("note"@ != "banner"@) by {
        assert("note"@.len() != "banner"@.len());
    }
    assert("option"@ != "banner"@) by {
        assert("option"@[0] != "banner"@[0]);
    }
    assert("presentation"@ != "banner"@) by {
        assert("presentation"@.len() != "banner"@.len());
    }
    assert("progressbar"@ != "banner"@) by {
        assert("progressbar"@.len() != "banner"@.len());
    }
    assert("radio"@ != "banner"@) by {
        assert("radio"@.len() != "banner"@.len());
    }
    assert("radiogroup"@ != "banner"@) by {
        assert("radiogroup"@.len() != "banner"@.len());
    }
    assert("region"@ != "banner"@) by {
        assert("region"@[0] != "banner"@[0]);
    }
    assert("row"@ != "banner"@) by {
        assert("row"@.len() != "banner"@.len());
    }
    assert("rowgroup"@ != "banner"@) by {
        assert("rowgroup"@.len() != "banner"@.len());
    }
    assert("rowheader"@ != "banner"@) by {
        assert("rowheader"@.len() != "banner"@.len());
    }
    assert("scrollbar"@ != "banner"@) by {
        assert("scrollbar"@.len() != "banner"@.len());
    }
    assert("search"@ != "banner"@) by {
        assert("search"@[0] != "banner"@[0]);
    }
    assert("searchbox"@ != "banner"@) by {
        assert("searchbox"@.len() != "banner"@.len());
    }
    assert("separator"@ != "banner"@) by {
        assert("separator"@.len() != "banner"@.len());
    }
    assert("slider"@ != "banner"@) by {
        assert("slider"@[0] != "banner"@[0]);
    }
    assert("spinbutton"@ != "banner"@) by {
        assert("spinbutton"@.len() != "banner"@.len());
    }
    assert("status"@ != "banner"@) by {
        assert("status"@[0] != "banner"@[0]);
    }
    assert("switch"@ != "banner"@) by {
        assert("switch"@[0] != "banner"@[0]);
    }
    assert("tab"@ != "banner"@) by {
        assert("tab"@.len() != "banner"@.len());
    }
    assert("table"@ != "banner"@) by {
        assert("table"@.len() != "banner"@.len());
    }
    assert("tablist"@ != "banner"@) by {
        assert("tablist"@.len() != "banner"@.len());
    }
    assert("tabpanel"@ != "banner"@) by {
        assert("tabpanel"@.len() != "banner"@.len());
    }
    assert("term"@ != "banner"@) by {
        assert("term"@.len() != "banner"@.len());
    }
    assert("textbox"@ != "banner"@) by {
        assert("textbox"@.len() != "banner"@.len());
    }
    assert("timer"@ != "banner"@) by {
        assert("timer"@.len() != "banner"@.len());
    }
    assert("toolbar"@ != "banner"@) by {
        assert("toolbar"@.len() != "banner"@.len());
    }
    assert("tooltip"@ != "banner"@) by {
        assert("tooltip"@.len() != "banner"@.len());
    }
    assert("tree"@ != "banner"@) by {
        assert("tree"@.len() != "banner"@.len());
    }
    assert("treegrid"@ != "banner"@) by {
        assert("treegrid"@.len() != "banner"@.len());
    }
    assert("treeitem"@ != "banner"@) by {
        assert("treeitem"@.len() != "banner"@.len());
    }
    assert("command"@ != "banner"@) by {
        assert("command"@.len() != "banner"@.len());
    }
    assert("composite"@ != "banner"@) by {
        assert("composite"@.len() != "banner"@.len());
    }
    assert("input"@ != "banner"@) by {
        assert("input"@.len() != "banner"@.len());
    }
    assert("landmark"@ != "banner"@) by {
        assert("landmark"@.len() != "banner"@.len());
    }
    assert("range"@ != "banner"@) by {
        assert("range"@.len() != "banner"@.len());
    }
    assert("roletype"@ != "banner"@) by {
        assert("roletype"@.len() != "banner"@.len());
    }
    assert("section"@ != "banner"@) by {
        assert("section"@.len() != "banner"@.len());
    }
    assert("sectionhead"@ != "banner"@) by {
        assert("sectionhead"@.len() != "banner"@.len());
    }
    assert("select"@ != "banner"@) by {
        assert("select"@[0] != "banner"@[0]);
    }
    assert("structure"@ != "banner"@) by {
        assert("structure"@.len() != "banner"@.len());
    }
    assert("widget"@ != "banner"@) by {
        assert("widget"@[0] != "banner"@[0]);
    }
    assert("window"@ != "banner"@) by {
        assert("window"@[0] != "banner"@[0]);
    }
}

proof fn role_name_unique_button(b: Role)
    requires
        b.name_spec() == "button"@,
    ensures
        b == Role::Button,
{
    reveal_strlit("alert");
    reveal_strlit("alertdialog");
    reveal_strlit("application");
    reveal_strlit("article");
    reveal_strlit("banner");
    reveal_strlit("button");
    reveal_strlit("cell");
    reveal_strlit("checkbox");
    reveal_strlit("columnheader");
    reveal_strlit("combobox");
    reveal_strlit("complementary");
    reveal_strlit("contentinfo");
    reveal_strlit("definition");
    reveal_strlit("dialog");
    reveal_strlit("directory");
    reveal_strlit("document");
    reveal_strlit("feed");
    reveal_strlit("figure");
    reveal_strlit("form");
    reveal_strlit("grid");
    reveal_strlit("gridcell");
    reveal_strlit("group");
    reveal_strlit("heading");
    reveal_strlit("img");
    reveal_strlit("link");
    reveal_strlit("list");
    reveal_strlit("listbox");
    reveal_strlit("listitem");
    reveal_strlit("log");
    reveal_strlit("main");
    reveal_strlit("marquee");
    reveal_strlit("math");
    reveal_strlit("menu");
    reveal_strlit("menubar");
    reveal_strlit("menuitem");
    reveal_strlit("menuitemcheckbox");
    reveal_strlit("menuitemradio");
    reveal_strlit("meter");
    reveal_strlit("navigation");
    reveal_strlit("none");
    reveal_strlit("note");
    reveal_strlit("option");
    reveal_strlit("presentation");
    reveal_strlit("progressbar");
    reveal_strlit("radio");
    reveal_strlit("radiogroup");
    reveal_strlit("region");
    reveal_strlit("row");
    reveal_strlit("rowgroup");
    reveal_strlit("rowheader");
    reveal_strlit("scrollbar");
    reveal_strlit("search");
    reveal_strlit("searchbox");
    reveal_strlit("separator");
    reveal_strlit("slider");
    reveal_strlit("spinbutton");
    reveal_strlit("status");
    reveal_strlit("switch");
    reveal_strlit("tab");
    reveal_strlit("table");
    reveal_strlit("tablist");
    reveal_strlit("tabpanel");
    reveal_strlit("term");
    reveal_strlit("textbox");
    reveal_strlit("timer");
    reveal_strlit("toolbar");
    reveal_strlit("tooltip");
    reveal_strlit("tree");
    reveal_strlit("treegrid");
    reveal_strlit("treeitem");
    reveal_strlit("command");
    reveal_strlit("composite");
    reveal_strlit("input");
    reveal_strlit("landmark");
    reveal_strlit("range");
    reveal_strlit("roletype");
    reveal_strlit("section");
    reveal_strlit("sectionhead");
    reveal_strlit("select");
    reveal_strlit("structure");
    reveal_strlit("widget");
    reveal_strlit("window");
    assert("alert"@ != "button"@) by {
        assert("alert"@.len() != "button"@.len());
    }
    assert("alertdialog"@ != "button"@) by {
        assert("alertdialog"@.len() != "button"@.len());
    }
    assert("application"@ != "button"@) by {
        assert("application"@.len() != "button"@.len());
    }
    assert("article"@ != "button"@) by {
        assert("article"@.len() != "button"@.len());
    }
    assert("banner"@ != "button"@) by {
        assert("banner"@[1] != "button"@[1]);
    }
    assert("cell"@ != "button"@) by {
        assert("cell"@.len() != "button"@.len());
    }
    assert("checkbox"@ != "button"@) by {
        assert("checkbox"@.len() != "button"@.len());
    }
    assert("columnheader"@ != "button"@) by {
        assert("columnheader"@.len() != "button"@.len());
    }
    assert("combobox"@ != "button"@) by {
        assert("combobox"@.len() != "button"@.len());
    }
    assert("complementary"@ != "button"@) by {
        assert("complementary"@.len() != "button"@.len());
    }
    assert("contentinfo"@ != "button"@) by {
        assert("contentinfo"@.len() != "button"@.len());
    }
    assert("definition"@ != "button"@) by {
        assert("definition"@.len() != "button"@.len());
    }
    assert("dialog"@ != "button"@) by {
        assert("dialog"@[0] != "button"@[0]);
    }
    assert("directory"@ != "button"@) by {
        assert("directory"@.len() != "button"@.len());
    }
    assert("document"@ != "button"@) by {
        assert("document"@.len() != "button"@.len());
    }
    assert("feed"@ != "button"@) by {
        assert("feed"@.len() != "button"@.len());
    }
    assert("figure"@ != "button"@) by {
        assert("figure"@[0] != "button"@[0]);
    }
    assert("form"@ != "button"@) by {
        assert("form"@.len() != "button"@.len());
    }
    assert("grid"@ != "button"@) by {
        assert("grid"@.len() != "button"@.len());
    }
    assert("gridcell"@ != "button"@) by {
        assert("gridcell"@.len() != "button"@.len());
    }
    assert("group"@ != "button"@) by {
        assert("group"@.len() != "button"@.len());
    }
    assert("heading"@ != "button"@) by {
        assert("heading"@.len() != "button"@.len());
    }
    assert("img"@ != "button"@) by {
        assert("img"@.len() != "button"@.len());
    }
    assert("link"@ != "button"@) by {
        assert("link"@.len() != "button"@.len());
    }
    assert("list"@ != "button"@) by {
        assert("list"@.len() != "button"@.len());
    }
    assert("listbox"@ != "button"@) by {
        assert("listbox"@.len() != "button"@.len());
    }
    assert("listitem"@ != "button"@) by {
        assert("listitem"@.len() != "button"@.len());
    }
    assert("log"@ != "button"@) by {
        assert("log"@.len() != "button"@.len());
    }
    assert("main"@ != "button"@) by {
        assert("main"@.len() != "button"@.len());
    }
    assert("marquee"@ != "button"@) by {
        assert("marquee"@.len() != "button"@.len());
    }
    assert("math"@ != "button"@) by {
        assert("math"@.len() != "button"@.len());
    }
    assert("menu"@ != "button"@) by {
        assert("menu"@.len() != "button"@.len());
    }
    assert("menubar"@ != "button"@) by {
        assert("menubar"@.len() != "button"@.len());
    }
    assert("menuitem"@ != "button"@) by {
        assert("menuitem"@.len() != "button"@.len());
    }
    assert("menuitemcheckbox"@ != "button"@) by {
        assert("menuitemcheckbox"@.len() != "button"@.len());
    }
    assert("menuitemradio"@ != "button"@) by {
        assert("menuitemradio"@.len() != "button"@.len());
    }
    assert("meter"@ != "button"@) by {
        assert("meter"@.len() != "button"@.len());
    }
    assert("navigation"@ != "button"@) by {
        assert("navigation"@.len() != "button"@.len());
    }
    assert("none"@ != "button"@) by {
        assert("none"@.len() != "button"@.len());
    }
    assert("note"@ != "button"@) by {
        assert("note"@.len() != "button"@.len());
    }
    assert("option"@ != "button"@) by {
        assert("option"@[0] != "button"@[0]);
    }
    assert("presentation"@ != "button"@) by {
        assert("presentation"@.len() != "button"@.len());
    }
    assert("progressbar"@ != "button"@) by {
        assert("progressbar"@.len() != "button"@.len());
    }
    assert("radio"@ != "button"@) by {
        assert("radio"@.len() != "button"@.len());
    }
    assert("radiogroup"@ != "button"@) by {
        assert("radiogroup"@.len() != "button"@.len());
    }
    assert("region"@ != "button"@) by {
        assert("region"@[0] != "button"@[0]);
    }
    assert("row"@ != "button"@) by {
        assert("row"@.len() != "button"@.len());
    }
    assert("rowgroup"@ != "button"@) by {
        assert("rowgroup"@.len() != "button"@.len());
    }
    assert("rowheader"@ != "button"@) by {
        assert("rowheader"@.len() != "button"@.len());
    }
    assert("scrollbar"@ != "button"@) by {
        assert("scrollbar"@.len() != "button"@.len());
    }
    assert("search"@ != "button"@) by {
        assert("search"@[0] != "button"@[0]);
    }
    assert("searchbox"@ != "button"@) by {
        assert("searchbox"@.len() != "button"@.len());
    }
    assert("separator"@ != "button"@) by {
        assert("separator"@.len() != "button"@.len());
    }
    assert("slider"@ != "button"@) by {
        assert("slider"@[0] != "button"@[0]);
    }
    assert("spinbutton"@ != "button"@) by {
        assert("spinbutton"@.len() != "button"@.len());
    }
    assert("status"@ != "button"@) by {
        assert("status"@[0] != "button"@[0]);
    }
    assert("switch"@ != "button"@) by {
        assert("switch"@[0] != "button"@[0]);
    }
    assert("tab"@ != "button"@) by {
        assert("tab"@.len() != "button"@.len());
    }
    assert("table"@ != "button"@) by {
        assert("table"@.len() != "button"@.len());
    }
    assert("tablist"@ != "button"@) by {
        assert("tablist"@.len() != "button"@.len());
    }
    assert("tabpanel"@ != "button"@) by {
        assert("tabpanel"@.len() != "button"@.len());
    }
    assert("term"@ != "button"@) by {
        assert("term"@.len() != "button"@.len());
    }
    assert("textbox"@ != "button"@) by {
        assert("textbox"@.len() != "button"@.len());
    }
    assert("timer"@ != "button"@) by {
        assert("timer"@.len() != "button"@.len());
    }
    assert("toolbar"@ != "button"@) by {
        assert("toolbar"@.len() != "button"@.len());
    }
    assert("tooltip"@ != "button"@) by {
        assert("tooltip"@.len() != "button"@.len());
    }
    assert("tree"@ != "button"@) by {
        assert("tree"@.len() != "button"@.len());
    }
    assert("treegrid"@ != "button"@) by {
        assert("treegrid"@.len() != "button"@.len());
    }
    assert("treeitem"@ != "button"@) by {
        assert("treeitem"@.len() != "button"@.len());
    }
    assert("command"@ != "button"@) by {
        assert("command"@.len() != "button"@.len());
    }
    assert("composite"@ != "button"@) by {
        assert("composite"@.len() != "button"@.len());
    }
    assert("input"@ != "button"@) by {
        assert("input"@.len() != "button"@.len());
    }
    assert("landmark"@ != "button"@) by {
        assert("landmark"@.len() != "button"@.len());
    }
    assert("range"@ != "button"@) by {
        assert("range"@.len() != "button"@.len());
    }
    assert("roletype"@ != "button"@) by {
        assert("roletype"@.len() != "button"@.len());
    }
    assert("section"@ != "button"@) by {
        assert("section"@.len() != "button"@.len());
    }
    assert("sectionhead"@ != "button"@) by {
        assert("sectionhead"@.len() != "button"@.len());
    }
    assert("select"@ != "button"@) by {
        assert("select"@[0] != "button"@[0]);
    }
    assert("structure"@ != "button"@) by {
        assert("structure"@.len() != "button"@.len());
    }
    assert("widget"@ != "button"@) by {
        assert("widget"@[0] != "button"@[0]);
    }
    assert("window"@ != "button"@) by {
        assert("window"@[0] != "button"@[0]);
    }
}

proof fn role_name_unique_cell(b: Role)
    requires
        b.name_spec() == "cell"@,
    ensures
        b == Role::Cell,
{
    reveal_strlit("alert");
    reveal_strlit("alertdialog");
    reveal_strlit("application");
    reveal_strlit("article");
    reveal_strlit("banner");
    reveal_strlit("button");
    reveal_strlit("cell");
    reveal_strlit("checkbox");
    reveal_strlit("columnheader");
    reveal_strlit("combobox");
    reveal_strlit("complementary");
    reveal_strlit("contentinfo");
    reveal_strlit("definition");
    reveal_strlit("dialog");
    reveal_strlit("directory");
    reveal_strlit("document");
    reveal_strlit("feed");
    reveal_strlit("figure");
    reveal_strlit("form");
    reveal_strlit("grid");
    reveal_strlit("gridcell");
    reveal_strlit("group");
    reveal_strlit("heading");
    reveal_strlit("img");
    reveal_strlit("link");
    reveal_strlit("list");
    reveal_strlit("listbox");
    reveal_strlit("listitem");
    reveal_strlit("log");
    reveal_strlit("main");
    reveal_strlit("marquee");
    reveal_strlit("math");
    reveal_strlit("menu");
    reveal_strlit("menubar");
    reveal_strlit("menuitem");
    reveal_strlit("menuitemcheckbox");
    reveal_strlit("menuitemradio");
    reveal_strlit("meter");
    reveal_strlit("navigation");
    reveal_strlit("none");
    reveal_strlit("note");
    reveal_strlit("option");
    reveal_strlit("presentation");
    reveal_strlit("progressbar");
    reveal_strlit("radio");
    reveal_strlit("radiogroup");
    reveal_strlit("region");
    reveal_strlit("row");
    reveal_strlit("rowgroup");
    reveal_strlit("rowheader");
    reveal_strlit("scrollbar");
    reveal_strlit("search");
    reveal_strlit("searchbox");
    reveal_strlit("separator");
    reveal_strlit("slider");
    reveal_strlit("spinbutton");
    reveal_strlit("status");
    reveal_strlit("switch");
    reveal_strlit("tab");
    reveal_strlit("table");
    reveal_strlit("tablist");
    reveal_strlit("tabpanel");
    reveal_strlit("term");
    reveal_strlit("textbox");
    reveal_strlit("timer");
    reveal_strlit("toolbar");
    reveal_strlit("tooltip");
    reveal_strlit("tree");
    reveal_strlit("treegrid");
    reveal_strlit("treeitem");
    reveal_strlit("command");
    reveal_strlit("composite");
    reveal_strlit("input");
    reveal_strlit("landmark");
    reveal_strlit("range");
    reveal_strlit("roletype");
    reveal_strlit("section");
    reveal_strlit("sectionhead");
    reveal_strlit("select");
    reveal_strlit("structure");
    reveal_strlit("widget");
    reveal_strlit("window");
    assert("alert"@ != "cell"@) by {
        assert("alert"@.len() != "cell"@.len());
    }
    assert("alertdialog"@ != "cell"@) by {
        assert("alertdialog"@.len() != "cell"@.len());
    }
    assert("application"@ != "cell"@) by {
        assert("application"@.len() != "cell"@.len());
    }
    assert("article"@ != "cell"@) by {
        assert("article"@.len() != "cell"@.len());
    }
    assert("banner"@ != "cell"@) by {
        assert("banner"@.len() != "cell"@.len());
    }
    assert("button"@ != "cell"@) by {
        assert("button"@.len() != "cell"@.len());
    }
    assert("checkbox"@ != "cell"@) by {
        assert("checkbox"@.len() != "cell"@.len());
    }
    assert("columnheader"@ != "cell"@) by {
        assert("columnheader"@.len() != "cell"@.len());
    }
    assert("combobox"@ != "cell"@) by {
        assert("combobox"@.len() != "cell"@.len());
    }
    assert("complementary"@ != "cell"@) by {
        assert("complementary"@.len() != "cell"@.len());
    }
    assert("contentinfo"@ != "cell"@) by {
        assert("contentinfo"@.len() != "cell"@.len());
    }
    assert("definition"@ != "cell"@) by {
        assert("definition"@.len() != "cell"@.len());
    }
    assert("dialog"@ != "cell"@) by {
        assert("dialog"@.len() != "cell"@.len());
    }
    assert("directory"@ != "cell"@) by {
        assert("directory"@.len() != "cell"@.len());
    }
    assert("document"@ != "cell"@) by {
        assert("document"@.len() != "cell"@.len());
    }
    assert("feed"@ != "cell"@) by {
        assert("feed"@[0] != "cell"@[0]);
    }
    assert("figure"@ != "cell"@) by {
        assert("figure"@.len() != "cell"@.len());
    }
    assert("form"@ != "cell"@) by {
        assert("form"@[0] != "cell"@[0]);
    }
    assert("grid"@ != "cell"@) by {
        assert("grid"@[0] != "cell"@[0]);
    }
    assert("gridcell"@ != "cell"@) by {
        assert("gridcell"@.len() != "cell"@.len());
    }
    assert("group"@ != "cell"@) by {
        assert("group"@.len() != "cell"@.len());
    }
    assert("heading"@ != "cell"@) by {
        assert("heading"@.len() != "cell"@.len());
    }
    assert("img"@ != "cell"@) by {
        assert("img"@.len() != "cell"@.len());
    }
    assert("link"@ != "cell"@) by {
        assert("link"@[0] != "cell"@[0]);
    }
    assert("list"@ != "cell"@) by {
        assert("list"@[0] != "cell"@[0]);
    }
    assert("listbox"@ != "cell"@) by {
        assert("listbox"@.len() != "cell"@.len());
    }
    assert("listitem"@ != "cell"@) by {
        assert("listitem"@.len() != "cell"@.len());
    }
    assert("log"@ != "cell"@) by {
        assert("log"@.len() != "cell"@.len());
    }
    assert("main"@ != "cell"@) by {
        assert("main"@[0] != "cell"@[0]);
    }
    assert("marquee"@ != "cell"@) by {
        assert("marquee"@.len() != "cell"@.len());
    }
    assert("math"@ != "cell"@) by {
        assert("math"@[0] != "cell"@[0]);
    }
    assert("menu"@ != "cell"@) by {
        assert("menu"@[0] != "cell"@[0]);
    }
    assert("menubar"@ != "cell"@) by {
        assert("menubar"@.len() != "cell"@.len());
    }
    assert("menuitem"@ != "cell"@) by {
        assert("menuitem"@.len() != "cell"@.len());
    }
    assert("menuitemcheckbox"@ != "cell"@) by {
        assert("menuitemcheckbox"@.len() != "cell"@.len());
    }
    assert("menuitemradio"@ != "cell"@) by {
        assert("menuitemradio"@.len() != "cell"@.len());
    }
    assert("meter"@ != "cell"@) by {
        assert("meter"@.len() != "cell"@.len());
    }
    assert("navigation"@ != "cell"@) by {
        assert("navigation"@.len() != "cell"@.len());
    }
    assert("none"@ != "cell"@) by {
        assert("none"@[0] != "cell"@[0]);
    }
    assert("note"@ != "cell"@) by {
        assert("note"@[0] != "cell"@[0]);
    }
    assert("option"@ != "cell"@) by {
        assert("option"@.len() != "cell"@.len());
    }
    assert("presentation"@ != "cell"@) by {
        assert("presentation"@.len() != "cell"@.len());
    }
    assert("progressbar"@ != "cell"@) by {
        assert("progressbar"@.len() != "cell"@.len());
    }
    assert("radio"@ != "cell"@) by {
        assert("radio"@.len() != "cell"@.len());
    }
    assert("radiogroup"@ != "cell"@) by {
        assert("radiogroup"@.len() != "cell"@.len());
    }
    assert("region"@ != "cell"@) by {
        assert("region"@.len() != "cell"@.len());
    }
    assert("row"@ != "cell"@) by {
        assert("row"@.len() != "cell"@.len());
    }
    assert("rowgroup"@ != "cell"@) by {
        assert("rowgroup"@.len() != "cell"@.len());
    }
    assert("rowheader"@ != "cell"@) by {
        assert("rowheader"@.len() != "cell"@.len());
    }
    assert("scrollbar"@ != "cell"@) by {
        assert("scrollbar"@.len() != "cell"@.len());
    }
    assert("search"@ != "cell"@) by {
        assert("search"@.len() != "cell"@.len());
    }
    assert("searchbox"@ != "cell"@) by {
        assert("searchbox"@.len() != "cell"@.len());
    }
    assert("separator"@ != "cell"@) by {
        assert("separator"@.len() != "cell"@.len());
    }
    assert("slider"@ != "cell"@) by {
        assert("slider"@.len() != "cell"@.len());
    }
    assert("spinbutton"@ != "cell"@) by {
        assert("spinbutton"@.len() != "cell"@.len());
    }
    assert("status"@ != "cell"@) by {
        assert("status"@.len() != "cell"@.len());
    }
    assert("switch"@ != "cell"@) by {
        assert("switch"@.len() != "cell"@.len());
    }
    assert("tab"@ != "cell"@) by {
        assert("tab"@.len() != "cell"@.len());
    }
    assert("table"@ != "cell"@) by {
        assert("table"@.len() != "cell"@.len());
    }
    assert("tablist"@ != "cell"@) by {
        assert("tablist"@.len() != "cell"@.len());
    }
    assert("tabpanel"@ != "cell"@) by {
        assert("tabpanel"@.len() != "cell"@.len());
    }
    assert("term"@ != "cell"@) by {
        assert("term"@[0] != "cell"@[0]);
    }
    assert("textbox"@ != "cell"@) by {
        assert("textbox"@.len() != "cell"@.len());
    }
    assert("timer"@ != "cell"@) by {
        assert("timer"@.len() != "cell"@.len());
    }
    assert("toolbar"@ != "cell"@) by {
        assert("toolbar"@.len() != "cell"@.len());
    }
    assert("tooltip"@ != "cell"@) by {
        assert("tooltip"@.len() != "cell"@.len());
    }
    assert("tree"@ != "cell"@) by {
        assert("tree"@[0] != "cell"@[0]);
    }
    assert("treegrid"@ != "cell"@) by {
        assert("treegrid"@.len() != "cell"@.len());
    }
    assert("treeitem"@ != "cell"@) by {
        assert("treeitem"@.len() != "cell"@.len());
    }
    assert("command"@ != "cell"@) by {
        assert("command"@.len() != "cell"@.len());
    }
    assert("composite"@ != "cell"@) by {
        assert("composite"@.len() != "cell"@.len());
    }
    assert("input"@ != "cell"@) by {
        assert("input"@.len() != "cell"@.len());
    }
    assert("landmark"@ != "cell"@) by {
        assert("landmark"@.len() != "cell"@.len());
    }
    assert("range"@ != "cell"@) by {
        assert("range"@.len() != "cell"@.len());
    }
    assert("roletype"@ != "cell"@) by {
        assert("roletype"@.len() != "cell"@.len());
    }
    assert("section"@ != "cell"@) by {
        assert("section"@.len() != "cell"@.len());
    }
    assert("sectionhead"@ != "cell"@) by {
        assert("sectionhead"@.len() != "cell"@.len());
    }
    assert("select"@ != "cell"@) by {
        assert("select"@.len() != "cell"@.len());
    }
    assert("structure"@ != "cell"@) by {
        assert("structure"@.len() != "cell"@.len());
    }
    assert("widget"@ != "cell"@) by {
        assert("widget"@.len() != "cell"@.len());
    }
    assert("window"@ != "cell"@) by {
        assert("window"@.len() != "cell"@.len());
    }
}

proof fn role_name_unique_checkbox(b: Role)
    requires
        b.name_spec() == "checkbox"@,
    ensures
        b == Role::Checkbox,
{
    reveal_strlit("alert");
    reveal_strlit("alertdialog");
    reveal_strlit("application");
    reveal_strlit("article");
    reveal_strlit("banner");
    reveal_strlit("button");
    reveal_strlit("cell");
    reveal_strlit("checkbox");
    reveal_strlit("columnheader");
    reveal_strlit("combobox");
    reveal_strlit("complementary");
    reveal_strlit("contentinfo");
    reveal_strlit("definition");
    reveal_strlit("dialog");
    reveal_strlit("directory");
    reveal_strlit("document");
    reveal_strlit("feed");
    reveal_strlit("figure");
    reveal_strlit("form");
    reveal_strlit("grid");
    reveal_strlit("gridcell");
    reveal_strlit("group");
    reveal_strlit("heading");
    reveal_strlit("img");
    reveal_strlit("link");
    reveal_strlit("list");
    reveal_strlit("listbox");
    reveal_strlit("listitem");
    reveal_strlit("log");
    reveal_strlit("main");
    reveal_strlit("marquee");
    reveal_strlit("math");
    reveal_strlit("menu");
    reveal_strlit("menubar");
    reveal_strlit("menuitem");
    reveal_strlit("menuitemcheckbox");
    reveal_strlit("menuitemradio");
    reveal_strlit("meter");
    reveal_strlit("navigation");
    reveal_strlit("none");
    reveal_strlit("note");
    reveal_strlit("option");
    reveal_strlit("presentation");
    reveal_strlit("progressbar");
    reveal_strlit("radio");
    reveal_strlit("radiogroup");
    reveal_strlit("region");
    reveal_strlit("row");
    reveal_strlit("rowgroup");
    reveal_strlit("rowheader");
    reveal_strlit("scrollbar");
    reveal_strlit("search");
    reveal_strlit("searchbox");
    reveal_strlit("separator");
    reveal_strlit("slider");
    reveal_strlit("spinbutton");
    reveal_strlit("status");
    reveal_strlit("switch");
    reveal_strlit("tab");
    reveal_strlit("table");
    reveal_strlit("tablist");
    reveal_strlit("tabpanel");
    reveal_strlit("term");
    reveal_strlit("textbox");
    reveal_strlit("timer");
    reveal_strlit("toolbar");
    reveal_strlit("tooltip");
    reveal_strlit("tree");
    reveal_strlit("treegrid");
    reveal_strlit("treeitem");
    reveal_strlit("command");
    reveal_strlit("composite");
    reveal_strlit("input");
    reveal_strlit("landmark");
    reveal_strlit("range");
    reveal_strlit("roletype");
    reveal_strlit("section");
    reveal_strlit("sectionhead");
    reveal_strlit("select");
    reveal_strlit("structure");
    reveal_strlit("widget");
    reveal_strlit("window");
    assert("alert"@ != "checkbox"@) by {
        assert("alert"@.len() != "checkbox"@.len());
    }
    assert("alertdialog"@ != "checkbox"@) by {
        assert("alertdialog"@.len() != "checkbox"@.len());
    }
    assert("application"@ != "checkbox"@) by {
        assert("application"@.len() != "checkbox"@.len());
    }
    assert("article"@ != "checkbox"@) by {
        assert("article"@.len() != "checkbox"@.len());
    }
    assert("banner"@ != "checkbox"@) by {
        assert("banner"@.len() != "checkbox"@.len());
    }
    assert("button"@ != "checkbox"@) by {
        assert("button"@.len() != "checkbox"@.len());
    }
    assert("cell"@ != "checkbox"@) by {
        assert("cell"@.len() != "checkbox"@.len());
    }
    assert("columnheader"@ != "checkbox"@) by {
        assert("columnheader"@.len() != "checkbox"@.len());
    }
    assert("combobox"@ != "checkbox"@) by {
        assert("combobox"@[1] != "checkbox"@[1]);
    }
    assert("complementary"@ != "checkbox"@) by {
        assert("complementary"@.len() != "checkbox"@.len());
    }
    assert("contentinfo"@ != "checkbox"@) by {
        assert("contentinfo"@.len() != "checkbox"@.len());
    }
    assert("definition"@ != "checkbox"@) by {
        assert("definition"@.len() != "checkbox"@.len());
    }
    assert("dialog"@ != "checkbox"@) by {
        assert("dialog"@.len() != "checkbox"@.len());
    }
    assert("directory"@ != "checkbox"@) by {
        assert("directory"@.len() != "checkbox"@.len());
    }
    assert("document"@ != "checkbox"@) by {
        assert("document"@[0] != "checkbox"@[0]);
    }
    assert("feed"@ != "checkbox"@) by {
        assert("feed"@.len() != "checkbox"@.len());
    }
    assert("figure"@ != "checkbox"@) by {
        assert("figure"@.len() != "checkbox"@.len());
    }
    assert("form"@ != "checkbox"@) by {
        assert("form"@.len() != "checkbox"@.len());
    }
    assert("grid"@ != "checkbox"@) by {
        assert("grid"@.len() != "checkbox"@.len());
    }
    assert("gridcell"@ != "checkbox"@) by {
        assert("gridcell"@[0] != "checkbox"@[0]);
    }
    assert("group"@ != "checkbox"@) by {
        assert("group"@.len() != "checkbox"@.len());
    }
    assert("heading"@ != "checkbox"@) by {
        assert("heading"@.len() != "checkbox"@.len());
    }
    assert("img"@ != "checkbox"@) by {
        assert("img"@.len() != "checkbox"@.len());
    }
    assert("link"@ != "checkbox"@) by {
        assert("link"@.len() != "checkbox"@.len());
    }
    assert("list"@ != "checkbox"@) by {
        assert("list"@.len() != "checkbox"@.len());
    }
    assert("listbox"@ != "checkbox"@) by {
        assert("listbox"@.len() != "checkbox"@.len());
    }
    assert("listitem"@ != "checkbox"@) by {
        assert("listitem"@[0] != "checkbox"@[0]);
    }
    assert("log"@ != "checkbox"@) by {
        assert("log"@.len() != "checkbox"@.len());
    }
    assert("main"@ != "checkbox"@) by {
        assert("main"@.len() != "checkbox"@.len());
    }
    assert("marquee"@ != "checkbox"@) by {
        assert("marquee"@.len() != "checkbox"@.len());
    }
    assert("math"@ != "checkbox"@) by {
        assert("math"@.len() != "checkbox"@.len());
    }
    assert("menu"@ != "checkbox"@) by {
        assert("menu"@.len() != "checkbox"@.len());
    }
    assert("menubar"@ != "checkbox"@) by {
        assert("menubar"@.len() != "checkbox"@.len());
    }
    assert("menuitem"@ != "checkbox"@) by {
        assert("menuitem"@[0] != "checkbox"@[0]);
    }
    assert("menuitemcheckbox"@ != "checkbox"@) by {
        assert("menuitemcheckbox"@.len() != "checkbox"@.len());
    }
    assert("menuitemradio"@ != "checkbox"@) by {
        assert("menuitemradio"@.len() != "checkbox"@.len());
    }
    assert("meter"@ != "checkbox"@) by {
        assert("meter"@.len() != "checkbox"@.len());
    }
    assert("navigation"@ != "checkbox"@) by {
        assert("navigation"@.len() != "checkbox"@.len());
    }
    assert("none"@ != "checkbox"@) by {
        assert("none"@.len() != "checkbox"@.len());
    }
    assert("note"@ != "checkbox"@) by {
        assert("note"@.len() != "checkbox"@.len());
    }
    assert("option"@ != "checkbox"@) by {
        assert("option"@.len() != "checkbox"@.len());
    }
    assert("presentation"@ != "checkbox"@) by {
        assert("presentation"@.len() != "checkbox"@.len());
    }
    assert("progressbar"@ != "checkbox"@) by {
        assert("progressbar"@.len() != "checkbox"@.len());
    }
    assert("radio"@ != "checkbox"@) by {
        assert("radio"@.len() != "checkbox"@.len());
    }
    assert("radiogroup"@ != "checkbox"@) by {
        assert("radiogroup"@.len() != "checkbox"@.len());
    }
    assert("region"@ != "checkbox"@) by {
        assert("region"@.len() != "checkbox"@.len());
    }
    assert("row"@ != "checkbox"@) by {
        assert("row"@.len() != "checkbox"@.len());
    }
    assert("rowgroup"@ != "checkbox"@) by {
        assert("rowgroup"@[0] != "checkbox"@[0]);
    }
    assert("rowheader"@ != "checkbox"@) by {
        assert("rowheader"@.len() != "checkbox"@.len());
    }
    assert("scrollbar"@ != "checkbox"@) by {
        assert("scrollbar"@.len() != "checkbox"@.len());
    }
    assert("search"@ != "checkbox"@) by {
        assert("search"@.len() != "checkbox"@.len());
    }
    assert("searchbox"@ != "checkbox"@) by {
        assert("searchbox"@.len() != "checkbox"@.len());
    }
    assert("separator"@ != "checkbox"@) by {
        assert("separator"@.len() != "checkbox"@.len());
    }
    assert("slider"@ != "checkbox"@) by {
        assert("slider"@.len() != "checkbox"@.len());
    }
    assert("spinbutton"@ != "checkbox"@) by {
        assert("spinbutton"@.len() != "checkbox"@.len());
    }
    assert("status"@ != "checkbox"@) by {
        assert("status"@.len() != "checkbox"@.len());
    }
    assert("switch"@ != "checkbox"@) by {
        assert("switch"@.len() != "checkbox"@.len());
    }
    assert("tab"@ != "checkbox"@) by {
        assert("tab"@.len() != "checkbox"@.len());
    }
    assert("table"@ != "checkbox"@) by {
        assert("table"@.len() != "checkbox"@.len());
    }
    assert("tablist"@ != "checkbox"@) by {
        assert("tablist"@.len() != "checkbox"@.len());
    }
    assert("tabpanel"@ != "checkbox"@) by {
        assert("tabpanel"@[0] != "checkbox"@[0]);
    }
    assert("term"@ != "checkbox"@) by {
        assert("term"@.len() != "checkbox"@.len());
    }
    assert("textbox"@ != "checkbox"@) by {
        assert("textbox"@.len() != "checkbox"@.len());
    }
    assert("timer"@ != "checkbox"@) by {
        assert("timer"@.len() != "checkbox"@.len());
    }
    assert("toolbar"@ != "checkbox"@) by {
        assert("toolbar"@.len() != "checkbox"@.len());
    }
    assert("tooltip"@ != "checkbox"@) by {
        assert("tooltip"@.len() != "checkbox"@.len());
    }
    assert("tree"@ != "checkbox"@) by {
        assert("tree"@.len() != "checkbox"@.len());
    }
    assert("treegrid"@ != "checkbox"@) by {
        assert("treegrid"@[0] != "checkbox"@[0]);
    }
    assert("treeitem"@ != "checkbox"@) by {
        assert("treeitem"@[0] != "checkbox"@[0]);
    }
    assert("command"@ != "checkbox"@) by {
        assert("command"@.len() != "checkbox"@.len());
    }
    assert("composite"@ != "checkbox"@) by {
        assert("composite"@.len() != "checkbox"@.len());
    }
    assert("input"@ != "checkbox"@) by {
        assert("input"@.len() != "checkbox"@.len());
    }
    assert("landmark"@ != "checkbox"@) by {
        assert("landmark"@[0] != "checkbox"@[0]);
    }
    assert("range"@ != "checkbox"@) by {
        assert("range"@.len() != "checkbox"@.len());
    }
    assert("roletype"@ != "checkbox"@) by {
        assert("roletype"@[0] != "checkbox"@[0]);
    }
    assert("section"@ != "checkbox"@) by {
        assert("section"@.len() != "checkbox"@.len());
    }
    assert("sectionhead"@ != "checkbox"@) by {
        assert("sectionhead"@.len() != "checkbox"@.len());
    }
    assert("select"@ != "checkbox"@) by {
        assert("select"@.len() != "checkbox"@.len());
    }
    assert("structure"@ != "checkbox"@) by {
        assert("structure"@.len() != "checkbox"@.len());
    }
    assert("widget"@ != "checkbox"@) by {
        assert("widget"@.len() != "checkbox"@.len());
    }
    assert("window"@ != "checkbox"@) by {
        assert("window"@.len() != "checkbox"@.len());
    }
}

proof fn role_name_unique_columnheader(b: Role)
    requires
        b.name_spec() == "columnheader"@,
    ensures
        b == Role::ColumnHeader,
{
    reveal_strlit("alert");
    reveal_strlit("alertdialog");
    reveal_strlit("application");
    reveal_strlit("article");
    reveal_strlit("banner");
    reveal_strlit("button");
    reveal_strlit("cell");
    reveal_strlit("checkbox");
    reveal_strlit("columnheader");
    reveal_strlit("combobox");
    reveal_strlit("complementary");
    reveal_strlit("contentinfo");
    reveal_strlit("definition");
    reveal_strlit("dialog");
    reveal_strlit("directory");
    reveal_strlit("document");
    reveal_strlit("feed");
    reveal_strlit("figure");
    reveal_strlit("form");
    reveal_strlit("grid");
    reveal_strlit("gridcell");
    reveal_strlit("group");
    reveal_strlit("heading");
    reveal_strlit("img");
    reveal_strlit("link");
    reveal_strlit("list");
    reveal_strlit("listbox");
    reveal_strlit("listitem");
    reveal_strlit("log");
    reveal_strlit("main");
    reveal_strlit("marquee");
    reveal_strlit("math");
    reveal_strlit("menu");
    reveal_strlit("menubar");
    reveal_strlit("menuitem");
    reveal_strlit("menuitemcheckbox");
    reveal_strlit("menuitemradio");
    reveal_strlit("meter");
    reveal_strlit("navigation");
    reveal_strlit("none");
    reveal_strlit("note");
    reveal_strlit("option");
    reveal_strlit("presentation");
    reveal_strlit("progressbar");
    reveal_strlit("radio");
    reveal_strlit("radiogroup");
    reveal_strlit("region");
    reveal_strlit("row");
    reveal_strlit("rowgroup");
    reveal_strlit("rowheader");
    reveal_strlit("scrollbar");
    reveal_strlit("search");
    reveal_strlit("searchbox");
    reveal_strlit("separator");
    reveal_strlit("slider");
    reveal_strlit("spinbutton");
    reveal_strlit("status");
    reveal_strlit("switch");
    reveal_strlit("tab");
    reveal_strlit("table");
    reveal_strlit("tablist");
    reveal_strlit("tabpanel");
    reveal_strlit("term");
    reveal_strlit("textbox");
    reveal_strlit("timer");
    reveal_strlit("toolbar");
    reveal_strlit("tooltip");
    reveal_strlit("tree");
    reveal_strlit("treegrid");
    reveal_strlit("treeitem");
    reveal_strlit("command");
    reveal_strlit("composite");
    reveal_strlit("input");
    reveal_strlit("landmark");
    reveal_strlit("range");
    reveal_strlit("roletype");
    reveal_strlit("section");
    reveal_strlit("sectionhead");
    reveal_strlit("select");
    reveal_strlit("structure");
    reveal_strlit("widget");
    reveal_strlit("window");
    assert("alert"@ != "columnheader"@) by {
        assert("alert"@.len() != "columnheader"@.len());
    }
    assert("alertdialog"@ != "columnheader"@) by {
        assert("alertdialog"@.len() != "columnheader"@.len());
    }
    assert("application"@ != "columnheader"@) by {
        assert("application"@.len() != "columnheader"@.len());
    }
    assert("article"@ != "columnheader"@) by {
        assert("article"@.len() != "columnheader"@.len());
    }
    assert("banner"@ != "columnheader"@) by {
        assert("banner"@.len() != "columnheader"@.len());
    }
    assert("button"@ != "columnheader"@) by {
        assert("button"@.len() != "columnheader"@.len());
    }
    assert("cell"@ != "columnheader"@) by {
        assert("cell"@.len() != "columnheader"@.len());
    }
    assert("checkbox"@ != "columnheader"@) by {
        assert("checkbox"@.len() != "columnheader"@.len());
    }
    assert("combobox"@ != "columnheader"@) by {
        assert("combobox"@.len() != "columnheader"@.len());
    }
    assert("complementary"@ != "columnheader"@) by {
        assert("complementary"@.len() != "columnheader"@.len());
    }
    assert("contentinfo"@ != "columnheader"@) by {
        assert("contentinfo"@.len() != "columnheader"@.len());
    }
    assert("definition"@ != "columnheader"@) by {
        assert("definition"@.len() != "columnheader"@.len());
    }
    assert("dialog"@ != "columnheader"@) by {
        assert("dialog"@.len() != "columnheader"@.len());
    }
    assert("directory"@ != "columnheader"@) by {
        assert("directory"@.len() != "columnheader"@.len());
    }
    assert("document"@ != "columnheader"@) by {
        assert("document"@.len() != "columnheader"@.len());
    }
    assert("feed"@ != "columnheader"@) by {
        assert("feed"@.len() != "columnheader"@.len());
    }
    assert("figure"@ != "columnheader"@) by {
        assert("figure"@.len() != "columnheader"@.len());
    }
    assert("form"@ != "columnheader"@) by {
        assert("form"@.len() != "columnheader"@.len());
    }
    assert("grid"@ != "columnheader"@) by {
        assert("grid"@.len() != "columnheader"@.len());
    }
    assert("gridcell"@ != "columnheader"@) by {
        assert("gridcell"@.len() != "columnheader"@.len());
    }
    assert("group"@ != "columnheader"@) by {
        assert("group"@.len() != "columnheader"@.len());
    }
    assert("heading"@ != "columnheader"@) by {
        assert("heading"@.len() != "columnheader"@.len());
    }
    assert("img"@ != "columnheader"@) by {
        assert("img"@.len() != "columnheader"@.len());
    }
    assert("link"@ != "columnheader"@) by {
        assert("link"@.len() != "columnheader"@.len());
    }
    assert("list"@ != "columnheader"@) by {
        assert("list"@.len() != "columnheader"@.len());
    }
    assert("listbox"@ != "columnheader"@) by {
        assert("listbox"@.len() != "columnheader"@.len());
    }
    assert("listitem"@ != "columnheader"@) by {
        assert("listitem"@.len() != "columnheader"@.len());
    }
    assert("log"@ != "columnheader"@) by {
        assert("log"@.len() != "columnheader"@.len());
    }
    assert("main"@ != "columnheader"@) by {
        assert("main"@.len() != "columnheader"@.len());
    }
    assert("marquee"@ != "columnheader"@) by {
        assert("marquee"@.len() != "columnheader"@.len());
    }
    assert("math"@ != "columnheader"@) by {
        assert("math"@.len() != "columnheader"@.len());
    }
    assert("menu"@ != "columnheader"@) by {
        assert("menu"@.len() != "columnheader"@.len());
    }
    assert("menubar"@ != "columnheader"@) by {
        assert("menubar"@.len() != "columnheader"@.len());
    }
    assert("menuitem"@ != "columnheader"@) by {
        assert("menuitem"@.len() != "columnheader"@.len());
    }
    assert("menuitemcheckbox"@ != "columnheader"@) by {
        assert("menuitemcheckbox"@.len() != "columnheader"@.len());
    }
    assert("menuitemradio"@ != "columnheader"@) by {
        assert("menuitemradio"@.len() != "columnheader"@.len());
    }
    assert("meter"@ != "columnheader"@) by {
        assert("meter"@.len() != "columnheader"@.len());
    }
    assert("navigation"@ != "columnheader"@) by {
        assert("navigation"@.len() != "columnheader"@.len());
    }
    assert("none"@ != "columnheader"@) by {
        assert("none"@.len() != "columnheader"@.len());
    }
    assert("note"@ != "columnheader"@) by {
        assert("note"@.len() != "columnheader"@.len());
    }
    assert("option"@ != "columnheader"@) by {
        assert("option"@.len() != "columnheader"@.len());
    }
    assert("presentation"@ != "columnheader"@) by {
        assert("presentation"@[0] != "columnheader"@[0]);
    }
    assert("progressbar"@ != "columnheader"@) by {
        assert("progressbar"@.len() != "columnheader"@.len());
    }
    assert("radio"@ != "columnheader"@) by {
        assert("radio"@.len() != "columnheader"@.len());
    }
    assert("radiogroup"@ != "columnheader"@) by {
        assert("radiogroup"@.len() != "columnheader"@.len());
    }
    assert("region"@ != "columnheader"@) by {
        assert("region"@.len() != "columnheader"@.len());
    }
    assert("row"@ != "columnheader"@) by {
        assert("row"@.len() != "columnheader"@.len());
    }
    assert("rowgroup"@ != "columnheader"@) by {
        assert("rowgroup"@.len() != "columnheader"@.len());
    }
    assert("rowheader"@ != "columnheader"@) by {
        assert("rowheader"@.len() != "columnheader"@.len());
    }
    assert("scrollbar"@ != "columnheader"@) by {
        assert("scrollbar"@.len() != "columnheader"@.len());
    }
    assert("search"@ != "columnheader"@) by {
        assert("search"@.len() != "columnheader"@.len());
    }
    assert("searchbox"@ != "columnheader"@) by {
        assert("searchbox"@.len() != "columnheader"@.len());
    }
    assert("separator"@ != "columnheader"@) by {
        assert("separator"@.len() != "columnheader"@.len());
    }
    assert("slider"@ != "columnheader"@) by {
        assert("slider"@.len() != "columnheader"@.len());
    }
    assert("spinbutton"@ != "columnheader"@) by {
        assert("spinbutton"@.len() != "columnheader"@.len());
    }
    assert("status"@ != "columnheader"@) by {
        assert("status"@.len() != "columnheader"@.len());
    }
    assert("switch"@ != "columnheader"@) by {
        assert("switch"@.len() != "columnheader"@.len());
    }
    assert("tab"@ != "columnheader"@) by {
        assert("tab"@.len() != "columnheader"@.len());
    }
    assert("table"@ != "columnheader"@) by {
        assert("table"@.len() != "columnheader"@.len());
    }
    assert("tablist"@ != "columnheader"@) by {
        assert("tablist"@.len() != "columnheader"@.len());
    }
    assert("tabpanel"@ != "columnheader"@) by {
        assert("tabpanel"@.len() != "columnheader"@.len());
    }
    assert("term"@ != "columnheader"@) by {
        assert("term"@.len() != "columnheader"@.len());
    }
    assert("textbox"@ != "columnheader"@) by {
        assert("textbox"@.len() != "columnheader"@.len());
    }
    assert("timer"@ != "columnheader"@) by {
        assert("timer"@.len() != "columnheader"@.len());
    }
    assert("toolbar"@ != "columnheader"@) by {
        assert("toolbar"@.len() != "columnheader"@.len());
    }
    assert("tooltip"@ != "columnheader"@) by {
        assert("tooltip"@.len() != "columnheader"@.len());
    }
    assert("tree"@ != "columnheader"@) by {
        assert("tree"@.len() != "columnheader"@.len());
    }
    assert("treegrid"@ != "columnheader"@) by {
        assert("treegrid"@.len() != "columnheader"@.len());
    }
    assert("treeitem"@ != "columnheader"@) by {
        assert("treeitem"@.len() != "columnheader"@.len());
    }
    assert("command"@ != "columnheader"@) by {
        assert("command"@.len() != "columnheader"@.len());
    }
    assert("composite"@ != "columnheader"@) by {
        assert("composite"@.len() != "columnheader"@.len());
    }
    assert("input"@ != "columnheader"@) by {
        assert("input"@.len() != "columnheader"@.len());
    }
    assert("landmark"@ != "columnheader"@) by {
        assert("landmark"@.len() != "columnheader"@.len());
    }
    assert("range"@ != "columnheader"@) by {
        assert("range"@.len() != "columnheader"@.len());
    }
    assert("roletype"@ != "columnheader"@) by {
        assert("roletype"@.len() != "columnheader"@.len());
    }
    assert("section"@ != "columnheader"@) by {
        assert("section"@.len() != "columnheader"@.len());
    }
    assert("sectionhead"@ != "columnheader"@) by {
        assert("sectionhead"@.len() != "columnheader"@.len());
    }
    assert("select"@ != "columnheader"@) by {
        assert("select"@.len() != "columnheader"@.len());
    }
    assert("structure"@ != "columnheader"@) by {
        assert("structure"@.len() != "columnheader"@.len());
    }
    assert("widget"@ != "columnheader"@) by {
        assert("widget"@.len() != "columnheader"@.len());
    }
    assert("window"@ != "columnheader"@) by {
        assert("window"@.len() != "columnheader"@.len());
    }
}

proof fn role_name_unique_combobox(b: Role)
    requires
        b.name_spec() == "combobox"@,
    ensures
        b == Role::Combobox,
{
    reveal_strlit("alert");
    reveal_strlit("alertdialog");
    reveal_strlit("application");
    reveal_strlit("article");
    reveal_strlit("banner");
    reveal_strlit("button");
    reveal_strlit("cell");
    reveal_strlit("checkbox");
    reveal_strlit("columnheader");
    reveal_strlit("combobox");
    reveal_strlit("complementary");
    reveal_strlit("contentinfo");
    reveal_strlit("definition");
    reveal_strlit("dialog");
    reveal_strlit("directory");
    reveal_strlit("document");
    reveal_strlit("feed");
    reveal_strlit("figure");
    reveal_strlit("form");
    reveal_strlit("grid");
    reveal_strlit("gridcell");
    reveal_strlit("group");
    reveal_strlit("heading");
    reveal_strlit("img");
    reveal_strlit("link");
    reveal_strlit("list");
    reveal_strlit("listbox");
    reveal_strlit("listitem");
    reveal_strlit("log");
    reveal_strlit("main");
    reveal_strlit("marquee");
    reveal_strlit("math");
    reveal_strlit("menu");
    reveal_strlit("menubar");
    reveal_strlit("menuitem");
    reveal_strlit("menuitemcheckbox");
    reveal_strlit("menuitemradio");
    reveal_strlit("meter");
    reveal_strlit("navigation");
    reveal_strlit("none");
    reveal_strlit("note");
    reveal_strlit("option");
    reveal_strlit("presentation");
    reveal_strlit("progressbar");
    reveal_strlit("radio");
    reveal_strlit("radiogroup");
    reveal_strlit("region");
    reveal_strlit("row");
    reveal_strlit("rowgroup");
    reveal_strlit("rowheader");
    reveal_strlit("scrollbar");
    reveal_strlit("search");
    reveal_strlit("searchbox");
    reveal_strlit("separator");
    reveal_strlit("slider");
    reveal_strlit("spinbutton");
    reveal_strlit("status");
    reveal_strlit("switch");
    reveal_strlit("tab");
    reveal_strlit("table");
    reveal_strlit("tablist");
    reveal_strlit("tabpanel");
    reveal_strlit("term");
    reveal_strlit("textbox");
    reveal_strlit("timer");
    reveal_strlit("toolbar");
    reveal_strlit("tooltip");
    reveal_strlit("tree");
    reveal_strlit("treegrid");
    reveal_strlit("treeitem");
    reveal_strlit("command");
    reveal_strlit("composite");
    reveal_strlit("input");
    reveal_strlit("landmark");
    reveal_strlit("range");
    reveal_strlit("roletype");
    reveal_strlit("section");
    reveal_strlit("sectionhead");
    reveal_strlit("select");
    reveal_strlit("structure");
    reveal_strlit("widget");
    reveal_strlit("window");
    assert("alert"@ != "combobox"@) by {
        assert("alert"@.len() != "combobox"@.len());
    }
    assert("alertdialog"@ != "combobox"@) by {
        assert("alertdialog"@.len() != "combobox"@.len());
    }
    assert("application"@ != "combobox"@) by {
        assert("application"@.len() != "combobox"@.len());
    }
    assert("article"@ != "combobox"@) by {
        assert("article"@.len() != "combobox"@.len());
    }
    assert("banner"@ != "combobox"@) by {
        assert("banner"@.len() != "combobox"@.len());
    }
    assert("button"@ != "combobox"@) by {
        assert("button"@.len() != "combobox"@.len());
    }
    assert("cell"@ != "combobox"@) by {
        assert("cell"@.len() != "combobox"@.len());
    }
    assert("checkbox"@ != "combobox"@) by {
        assert("checkbox"@[1] != "combobox"@[1]);
    }
    assert("columnheader"@ != "combobox"@) by {
        assert("columnheader"@.len() != "combobox"@.len());
    }
    assert("complementary"@ != "combobox"@) by {
        assert("complementary"@.len() != "combobox"@.len());
    }
    assert("contentinfo"@ != "combobox"@) by {
        assert("contentinfo"@.len() != "combobox"@.len());
    }
    assert("definition"@ != "combobox"@) by {
        assert("definition"@.len() != "combobox"@.len());
    }
    assert("dialog"@ != "combobox"@) by {
        assert("dialog"@.len() != "combobox"@.len());
    }
    assert("directory"@ != "combobox"@) by {
        assert("directory"@.len() != "combobox"@.len());
    }
    assert("document"@ != "combobox"@) by {
        assert("document"@[0] != "combobox"@[0]);
    }
    assert("feed"@ != "combobox"@) by {
        assert("feed"@.len() != "combobox"@.len());
    }
    assert("figure"@ != "combobox"@) by {
        assert("figure"@.len() != "combobox"@.len());
    }
    assert("form"@ != "combobox"@) by {
        assert("form"@.len() != "combobox"@.len());
    }
    assert("grid"@ != "combobox"@) by {
        assert("grid"@.len() != "combobox"@.len());
    }
    assert("gridcell"@ != "combobox"@) by {
        assert("gridcell"@[0] != "combobox"@[0]);
    }
    assert("group"@ != "combobox"@) by {
        assert("group"@.len() != "combobox"@.len());
    }
    assert("heading"@ != "combobox"@) by {
        assert("heading"@.len() != "combobox"@.len());
    }
    assert("img"@ != "combobox"@) by {
        assert("img"@.len() != "combobox"@.len());
    }
    assert("link"@ != "combobox"@) by {
        assert("link"@.len() != "combobox"@.len());
    }
    assert("list"@ != "combobox"@) by {
        assert("list"@.len() != "combobox"@.len());
    }
    assert("listbox"@ != "combobox"@) by {
        assert("listbox"@.len() != "combobox"@.len());
    }
    assert("listitem"@ != "combobox"@) by {
        assert("listitem"@[0] != "combobox"@[0]);
    }
    assert("log"@ != "combobox"@) by {
        assert("log"@.len() != "combobox"@.len());
    }
    assert("main"@ != "combobox"@) by {
        assert("main"@.len() != "combobox"@.len());
    }
    assert("marquee"@ != "combobox"@) by {
        assert("marquee"@.len() != "combobox"@.len());
    }
    assert("math"@ != "combobox"@) by {
        assert("math"@.len() != "combobox"@.len());
    }
    assert("menu"@ != "combobox"@) by {
        assert("menu"@.len() != "combobox"@.len());
    }
    assert("menubar"@ != "combobox"@) by {
        assert("menubar"@.len() != "combobox"@.len());
    }
    assert("menuitem"@ != "combobox"@) by {
        assert("menuitem"@[0] != "combobox"@[0]);
    }
    assert("menuitemcheckbox"@ != "combobox"@) by {
        assert("menuitemcheckbox"@.len() != "combobox"@.len());
    }
    assert("menuitemradio"@ != "combobox"@) by {
        assert("menuitemradio"@.len() != "combobox"@.len());
    }
    assert("meter"@ != "combobox"@) by {
        assert("meter"@.len() != "combobox"@.len());
    }
    assert("navigation"@ != "combobox"@) by {
        assert("navigation"@.len() != "combobox"@.len());
    }
    assert("none"@ != "combobox"@) by {
        assert("none"@.len() != "combobox"@.len());
    }
    assert("note"@ != "combobox"@) by {
        assert("note"@.len() != "combobox"@.len());
    }
    assert("option"@ != "combobox"@) by {
        assert("option"@.len() != "combobox"@.len());
    }
    assert("presentation"@ != "combobox"@) by {
        assert("presentation"@.len() != "combobox"@.len());
    }
    assert("progressbar"@ != "combobox"@) by {
        assert("progressbar"@.len() != "combobox"@.len());
    }
    assert("radio"@ != "combobox"@) by {
        assert("radio"@.len() != "combobox"@.len());
    }
    assert("radiogroup"@ != "combobox"@) by {
        assert("radiogroup"@.len() != "combobox"@.len());
    }
    assert("region"@ != "combobox"@) by {
        assert("region"@.len() != "combobox"@.len());
    }
    assert("row"@ != "combobox"@) by {
        assert("row"@.len() != "combobox"@.len());
    }
    assert("rowgroup"@ != "combobox"@) by {
        assert("rowgroup"@[0] != "combobox"@[0]);
    }
    assert("rowheader"@ != "combobox"@) by {
        assert("rowheader"@.len() != "combobox"@.len());
    }
    assert("scrollbar"@ != "combobox"@) by {
        assert("scrollbar"@.len() != "combobox"@.len());
    }
    assert("search"@ != "combobox"@) by {
        assert("search"@.len() != "combobox"@.len());
    }
    assert("searchbox"@ != "combobox"@) by {
        assert("searchbox"@.len() != "combobox"@.len());
    }
    assert("separator"@ != "combobox"@) by {
        assert("separator"@.len() != "combobox"@.len());
    }
    assert("slider"@ != "combobox"@) by {
        assert("slider"@.len() != "combobox"@.len());
    }
    assert("spinbutton"@ != "combobox"@) by {
        assert("spinbutton"@.len() != "combobox"@.len());
    }
    assert("status"@ != "combobox"@) by {
        assert("status"@.len() != "combobox"@.len());
    }
    assert("switch"@ != "combobox"@) by {
        assert("switch"@.len() != "combobox"@.len());
    }
    assert("tab"@ != "combobox"@) by {
        assert("tab"@.len() != "combobox"@.len());
    }
    assert("table"@ != "combobox"@) by {
        assert("table"@.len() != "combobox"@.len());
    }
    assert("tablist"@ != "combobox"@) by {
        assert("tablist"@.len() != "combobox"@.len());
    }
    assert("tabpanel"@ != "combobox"@) by {
        assert("tabpanel"@[0] != "combobox"@[0]);
    }
    assert("term"@ != "combobox"@) by {
        assert("term"@.len() != "combobox"@.len());
    }
    assert("textbox"@ != "combobox"@) by {
        assert("textbox"@.len() != "combobox"@.len());
    }
    assert("timer"@ != "combobox"@) by {
        assert("timer"@.len() != "combobox"@.len());
    }
    assert("toolbar"@ != "combobox"@) by {
        assert("toolbar"@.len() != "combobox"@.len());
    }
    assert("tooltip"@ != "combobox"@) by {
        assert("tooltip"@.len() != "combobox"@.len());
    }
    assert("tree"@ != "combobox"@) by {
        assert("tree"@.len() != "combobox"@.len());
    }
    assert("treegrid"@ != "combobox"@) by {
        assert("treegrid"@[0] != "combobox"@[0]);
    }
    assert("treeitem"@ != "combobox"@) by {
        assert("treeitem"@[0] != "combobox"@[0]);
    }
    assert("command"@ != "combobox"@) by {
        assert("command"@.len() != "combobox"@.len());
    }
    assert("composite"@ != "combobox"@) by {
        assert("composite"@.len() != "combobox"@.len());
    }
    assert("input"@ != "combobox"@) by {
        assert("input"@.len() != "combobox"@.len());
    }
    assert("landmark"@ != "combobox"@) by {
        assert("landmark"@[0] != "combobox"@[0]);
    }
    assert("range"@ != "combobox"@) by {
        assert("range"@.len() != "combobox"@.len());
    }
    assert("roletype"@ != "combobox"@) by {
        assert("roletype"@[0] != "combobox"@[0]);
    }
    assert("section"@ != "combobox"@) by {
        assert("section"@.len() != "combobox"@.len());
    }
    assert("sectionhead"@ != "combobox"@) by {
        assert("sectionhead"@.len() != "combobox"@.len());
    }
    assert("select"@ != "combobox"@) by {
        assert("select"@.len() != "combobox"@.len());
    }
    assert("structure"@ != "combobox"@) by {
        assert("structure"@.len() != "combobox"@.len());
    }
    assert("widget"@ != "combobox"@) by {
        assert("widget"@.len() != "combobox"@.len());
    }
    assert("window"@ != "combobox"@) by {
        assert("window"@.len() != "combobox"@.len());
    }
}

proof fn role_name_unique_complementary(b: Role)
    requires
        b.name_spec() == "complementary"@,
    ensures
        b == Role::Complementary,
{
    reveal_strlit("alert");
    reveal_strlit("alertdialog");
    reveal_strlit("application");
    reveal_strlit("article");
    reveal_strlit("banner");
    reveal_strlit("button");
    reveal_strlit("cell");
    reveal_strlit("checkbox");
    reveal_strlit("columnheader");
    reveal_strlit("combobox");
    reveal_strlit("complementary");
    reveal_strlit("contentinfo");
    reveal_strlit("definition");
    reveal_strlit("dialog");
    reveal_strlit("directory");
    reveal_strlit("document");
    reveal_strlit("feed");
    reveal_strlit("figure");
    reveal_strlit("form");
    reveal_strlit("grid");
    reveal_strlit("gridcell");
    reveal_strlit("group");
    reveal_strlit("heading");
    reveal_strlit("img");
    reveal_strlit("link");
    reveal_strlit("list");
    reveal_strlit("listbox");
    reveal_strlit("listitem");
    reveal_strlit("log");
    reveal_strlit("main");
    reveal_strlit("marquee");
    reveal_strlit("math");
    reveal_strlit("menu");
    reveal_strlit("menubar");
    reveal_strlit("menuitem");
    reveal_strlit("menuitemcheckbox");
    reveal_strlit("menuitemradio");
    reveal_strlit("meter");
    reveal_strlit("navigation");
    reveal_strlit("none");
    reveal_strlit("note");
    reveal_strlit("option");
    reveal_strlit("presentation");
    reveal_strlit("progressbar");
    reveal_strlit("radio");
    reveal_strlit("radiogroup");
    reveal_strlit("region");
    reveal_strlit("row");
    reveal_strlit("rowgroup");
    reveal_strlit("rowheader");
    reveal_strlit("scrollbar");
    reveal_strlit("search");
    reveal_strlit("searchbox");
    reveal_strlit("separator");
    reveal_strlit("slider");
    reveal_strlit("spinbutton");
    reveal_strlit("status");
    reveal_strlit("switch");
    reveal_strlit("tab");
    reveal_strlit("table");
    reveal_strlit("tablist");
    reveal_strlit("tabpanel");
    reveal_strlit("term");
    reveal_strlit("textbox");
    reveal_strlit("timer");
    reveal_strlit("toolbar");
    reveal_strlit("tooltip");
    reveal_strlit("tree");
    reveal_strlit("treegrid");
    reveal_strlit("treeitem");
    reveal_strlit("command");
    reveal_strlit("composite");
    reveal_strlit("input");
    reveal_strlit("landmark");
    reveal_strlit("range");
    reveal_strlit("roletype");
    reveal_strlit("section");
    reveal_strlit("sectionhead");
    reveal_strlit("select");
    reveal_strlit("structure");
    reveal_strlit("widget");
    reveal_strlit("window");
    assert("alert"@ != "complementary"@) by {
        assert("alert"@.len() != "complementary"@.len());
    }
    assert("alertdialog"@ != "complementary"@) by {
        assert("alertdialog"@.len() != "complementary"@.len());
    }
    assert("application"@ != "complementary"@) by {
        assert("application"@.len() != "complementary"@.len());
    }
    assert("article"@ != "complementary"@) by {
        assert("article"@.len() != "complementary"@.len());
    }
    assert("banner"@ != "complementary"@) by {
        assert("banner"@.len() != "complementary"@.len());
    }
    assert("button"@ != "complementary"@) by {
        assert("button"@.len() != "complementary"@.len());
    }
    assert("cell"@ != "complementary"@) by {
        assert("cell"@.len() != "complementary"@.len());
    }
    assert("checkbox"@ != "complementary"@) by {
        assert("checkbox"@.len() != "complementary"@.len());
    }
    assert("columnheader"@ != "complementary"@) by {
        assert("columnheader"@.len() != "complementary"@.len());
    }
    assert("combobox"@ != "complementary"@) by {
        assert("combobox"@.len() != "complementary"@.len());
    }
    assert("contentinfo"@ != "complementary"@) by {
        assert("contentinfo"@.len() != "complementary"@.len());
    }
    assert("definition"@ != "complementary"@) by {
        assert("definition"@.len() != "complementary"@.len());
    }
    assert("dialog"@ != "complementary"@) by {
        assert("dialog"@.len() != "complementary"@.len());
    }
    assert("directory"@ != "complementary"@) by {
        assert("directory"@.len() != "complementary"@.len());
    }
    assert("document"@ != "complementary"@) by {
        assert("document"@.len() != "complementary"@.len());
    }
    assert("feed"@ != "complementary"@) by {
        assert("feed"@.len() != "complementary"@.len());
    }
    assert("figure"@ != "complementary"@) by {
        assert("figure"@.len() != "complementary"@.len());
    }
    assert("form"@ != "complementary"@) by {
        assert("form"@.len() != "complementary"@.len());
    }
    assert("grid"@ != "complementary"@) by {
        assert("grid"@.len() != "complementary"@.len());
    }
    assert("gridcell"@ != "complementary"@) by {
        assert("gridcell"@.len() != "complementary"@.len());
    }
    assert("group"@ != "complementary"@) by {
        assert("group"@.len() != "complementary"@.len());
    }
    assert("heading"@ != "complementary"@) by {
        assert("heading"@.len() != "complementary"@.len());
    }
    assert("img"@ != "complementary"@) by {
        assert("img"@.len() != "complementary"@.len());
    }
    assert("link"@ != "complementary"@) by {
        assert("link"@.len() != "complementary"@.len());
    }
    assert("list"@ != "complementary"@) by {
        assert("list"@.len() != "complementary"@.len());
    }
    assert("listbox"@ != "complementary"@) by {
        assert("listbox"@.len() != "complementary"@.len());
    }
    assert("listitem"@ != "complementary"@) by {
        assert("listitem"@.len() != "complementary"@.len());
    }
    assert("log"@ != "complementary"@) by {
        assert("log"@.len() != "complementary"@.len());
    }
    assert("main"@ != "complementary"@) by {
        assert("main"@.len() != "complementary"@.len());
    }
    assert("marquee"@ != "complementary"@) by {
        assert("marquee"@.len() != "complementary"@.len());
    }
    assert("math"@ != "complementary"@) by {
        assert("math"@.len() != "complementary"@.len());
    }
    assert("menu"@ != "complementary"@) by {
        assert("menu"@.len() != "complementary"@.len());
    }
    assert("menubar"@ != "complementary"@) by {
        assert("menubar"@.len() != "complementary"@.len());
    }
    assert("menuitem"@ != "complementary"@) by {
        assert("menuitem"@.len() != "complementary"@.len());
    }
    assert("menuitemcheckbox"@ != "complementary"@) by {
        assert("menuitemcheckbox"@.len() != "complementary"@.len());
    }
    assert("menuitemradio"@ != "complementary"@) by {
        assert("menuitemradio"@[0] != "complementary"@[0]);
    }
    assert("meter"@ != "complementary"@) by {
        assert("meter"@.len() != "complementary"@.len());
    }
    assert("navigation"@ != "complementary"@) by {
        assert("navigation"@.len() != "complementary"@.len());
    }
    assert("none"@ != "complementary"@) by {
        assert("none"@.len() != "complementary"@.len());
    }
    assert("note"@ != "complementary"@) by {
        assert("note"@.len() != "complementary"@.len());
    }
    assert("option"@ != "complementary"@) by {
        assert("option"@.len() != "complementary"@.len());
    }
    assert("presentation"@ != "complementary"@) by {
        assert("presentation"@.len() != "complementary"@.len());
    }
    assert("progressbar"@ != "complementary"@) by {
        assert("progressbar"@.len() != "complementary"@.len());
    }
    assert("radio"@ != "complementary"@) by {
        assert("radio"@.len() != "complementary"@.len());
    }
    assert("radiogroup"@ != "complementary"@) by {
        assert("radiogroup"@.len() != "complementary"@.len());
    }
    assert("region"@ != "complementary"@) by {
        assert("region"@.len() != "complementary"@.len());
    }
    assert("row"@ != "complementary"@) by {
        assert("row"@.len() != "complementary"@.len());
    }
    assert("rowgroup"@ != "complementary"@) by {
        assert("rowgroup"@.len() != "complementary"@.len());
    }
    assert("rowheader"@ != "complementary"@) by {
        assert("rowheader"@.len() != "complementary"@.len());
    }
    assert("scrollbar"@ != "complementary"@) by {
        assert("scrollbar"@.len() != "complementary"@.len());
    }
    assert("search"@ != "complementary"@) by {
        assert("search"@.len() != "complementary"@.len());
    }
    assert("searchbox"@ != "complementary"@) by {
        assert("searchbox"@.len() != "complementary"@.len());
    }
    assert("separator"@ != "complementary"@) by {
        assert("separator"@.len() != "complementary"@.len());
    }
    assert("slider"@ != "complementary"@) by {
        assert("slider"@.len() != "complementary"@.len());
    }
    assert("spinbutton"@ != "complementary"@) by {
        assert("spinbutton"@.len() != "complementary"@.len());
    }
    assert("status"@ != "complementary"@) by {
        assert("status"@.len() != "complementary"@.len());
    }
    assert("switch"@ != "complementary"@) by {
        assert("switch"@.len() != "complementary"@.len());
    }
    assert("tab"@ != "complementary"@) by {
        assert("tab"@.len() != "complementary"@.len());
    }
    assert("table"@ != "complementary"@) by {
        assert("table"@.len() != "complementary"@.len());
    }
    assert("tablist"@ != "complementary"@) by {
        assert("tablist"@.len() != "complementary"@.len());
    }
    assert("tabpanel"@ != "complementary"@) by {
        assert("tabpanel"@.len() != "complementary"@.len());
    }
    assert("term"@ != "complementary"@) by {
        assert("term"@.len() != "complementary"@.len());
    }
    assert("textbox"@ != "complementary"@) by {
        assert("textbox"@.len() != "complementary"@.len());
    }
    assert("timer"@ != "complementary"@) by {
        assert("timer"@.len() != "complementary"@.len());
    }
    assert("toolbar"@ != "complementary"@) by {
        assert("toolbar"@.len() != "complementary"@.len());
    }
    assert("tooltip"@ != "complementary"@) by {
        assert("tooltip"@.len() != "complementary"@.len());
    }
    assert("tree"@ != "complementary"@) by {
        assert("tree"@.len() != "complementary"@.len());
    }
    assert("treegrid"@ != "complementary"@) by {
        assert("treegrid"@.len() != "complementary"@.len());
    }
    assert("treeitem"@ != "complementary"@) by {
        assert("treeitem"@.len() != "complementary"@.len());
    }
    assert("command"@ != "complementary"@) by {
        assert("command"@.len() != "complementary"@.len());
    }
    assert("composite"@ != "complementary"@) by {
        assert("composite"@.len() != "complementary"@.len());
    }
    assert("input"@ != "complementary"@) by {
        assert("input"@.len() != "complementary"@.len());
    }
    assert("landmark"@ != "complementary"@) by {
        assert("landmark"@.len() != "complementary"@.len());
    }
    assert("range"@ != "complementary"@) by {
        assert("range"@.len() != "complementary"@.len());
    }
    assert("roletype"@ != "complementary"@) by {
        assert("roletype"@.len() != "complementary"@.len());
    }
    assert("section"@ != "complementary"@) by {
        assert("section"@.len() != "complementary"@.len());
    }
    assert("sectionhead"@ != "complementary"@) by {
        assert("sectionhead"@.len() != "complementary"@.len());
    }
    assert("select"@ != "complementary"@) by {
        assert("select"@.len() != "complementary"@.len());
    }
    assert("structure"@ != "complementary"@) by {
        assert("structure"@.len() != "complementary"@.len());
    }
    assert("widget"@ != "complementary"@) by {
        assert("widget"@.len() != "complementary"@.len());
    }
    assert("window"@ != "complementary"@) by {
        assert("window"@.len() != "complementary"@.len());
    }
}

proof fn role_name_unique_contentinfo(b: Role)
    requires
        b.name_spec() == "contentinfo"@,
    ensures
        b == Role::ContentInfo,
{
    reveal_strlit("alert");
    reveal_strlit("alertdialog");
    reveal_strlit("application");
    reveal_strlit("article");
    reveal_strlit("banner");
    reveal_strlit("button");
    reveal_strlit("cell");
    reveal_strlit("checkbox");
    reveal_strlit("columnheader");
    reveal_strlit("combobox");
    reveal_strlit("complementary");
    reveal_strlit("contentinfo");
    reveal_strlit("definition");
    reveal_strlit("dialog");
    reveal_strlit("directory");
    reveal_strlit("document");
    reveal_strlit("feed");
    reveal_strlit("figure");
    reveal_strlit("form");
    reveal_strlit("grid");
    reveal_strlit("gridcell");
    reveal_strlit("group");
    reveal_strlit("heading");
    reveal_strlit("img");
    reveal_strlit("link");
    reveal_strlit("list");
    reveal_strlit("listbox");
    reveal_strlit("listitem");
    reveal_strlit("log");
    reveal_strlit("main");
    reveal_strlit("marquee");
    reveal_strlit("math");
    reveal_strlit("menu");
    reveal_strlit("menubar");
    reveal_strlit("menuitem");
    reveal_strlit("menuitemcheckbox");
    reveal_strlit("menuitemradio");
    reveal_strlit("meter");
    reveal_strlit("navigation");
    reveal_strlit("none");
    reveal_strlit("note");
    reveal_strlit("option");
    reveal_strlit("presentation");
    reveal_strlit("progressbar");
    reveal_strlit("radio");
    reveal_strlit("radiogroup");
    reveal_strlit("region");
    reveal_strlit("row");
    reveal_strlit("rowgroup");
    reveal_strlit("rowheader");
    reveal_strlit("scrollbar");
    reveal_strlit("search");
    reveal_strlit("searchbox");
    reveal_strlit("separator");
    reveal_strlit("slider");
    reveal_strlit("spinbutton");
    reveal_strlit("status");
    reveal_strlit("switch");
    reveal_strlit("tab");
    reveal_strlit("table");
    reveal_strlit("tablist");
    reveal_strlit("tabpanel");
    reveal_strlit("term");
    reveal_strlit("textbox");
    reveal_strlit("timer");
    reveal_strlit("toolbar");
    reveal_strlit("tooltip");
    reveal_strlit("tree");
    reveal_strlit("treegrid");
    reveal_strlit("treeitem");
    reveal_strlit("command");
    reveal_strlit("composite");
    reveal_strlit("input");
    reveal_strlit("landmark");
    reveal_strlit("range");
    reveal_strlit("roletype");
    reveal_strlit("section");
    reveal_strlit("sectionhead");
    reveal_strlit("select");
    reveal_strlit("structure");
    reveal_strlit("widget");
    reveal_strlit("window");
    assert("alert"@ != "contentinfo"@) by {
        assert("alert"@.len() != "contentinfo"@.len());
    }
    assert("alertdialog"@ != "contentinfo"@) by {
        assert("alertdialog"@[0] != "contentinfo"@[0]);
    }
    assert("application"@ != "contentinfo"@) by {
        assert("application"@[0] != "contentinfo"@[0]);
    }
    assert("article"@ != "contentinfo"@) by {
        assert("article"@.len() != "contentinfo"@.len());
    }
    assert("banner"@ != "contentinfo"@) by {
        assert("banner"@.len() != "contentinfo"@.len());
    }
    assert("button"@ != "contentinfo"@) by {
        assert("button"@.len() != "contentinfo"@.len());
    }
    assert("cell"@ != "contentinfo"@) by {
        assert("cell"@.len() != "contentinfo"@.len());
    }
    assert("checkbox"@ != "contentinfo"@) by {
        assert("checkbox"@.len() != "contentinfo"@.len());
    }
    assert("columnheader"@ != "contentinfo"@) by {
        assert("columnheader"@.len() != "contentinfo"@.len());
    }
    assert("combobox"@ != "contentinfo"@) by {
        assert("combobox"@.len() != "contentinfo"@.len());
    }
    assert("complementary"@ != "contentinfo"@) by {
        assert("complementary"@.len() != "contentinfo"@.len());
    }
    assert("definition"@ != "contentinfo"@) by {
        assert("definition"@.len() != "contentinfo"@.len());
    }
    assert("dialog"@ != "contentinfo"@) by {
        assert("dialog"@.len() != "contentinfo"@.len());
    }
    assert("directory"@ != "contentinfo"@) by {
        assert("directory"@.len() != "contentinfo"@.len());
    }
    assert("document"@ != "contentinfo"@) by {
        assert("document"@.len() != "contentinfo"@.len());
    }
    assert("feed"@ != "contentinfo"@) by {
        assert("feed"@.len() != "contentinfo"@.len());
    }
    assert("figure"@ != "contentinfo"@) by {
        assert("figure"@.len() != "contentinfo"@.len());
    }
    assert("form"@ != "contentinfo"@) by {
        assert("form"@.len() != "contentinfo"@.len());
    }
    assert("grid"@ != "contentinfo"@) by {
        assert("grid"@.len() != "contentinfo"@.len());
    }
    assert("gridcell"@ != "contentinfo"@) by {
        assert("gridcell"@.len() != "contentinfo"@.len());
    }
    assert("group"@ != "contentinfo"@) by {
        assert("group"@.len() != "contentinfo"@.len());
    }
    assert("heading"@ != "contentinfo"@) by {
        assert("heading"@.len() != "contentinfo"@.len());
    }
    assert("img"@ != "contentinfo"@) by {
        assert("img"@.len() != "contentinfo"@.len());
    }
    assert("link"@ != "contentinfo"@) by {
        assert("link"@.len() != "contentinfo"@.len());
    }
    assert("list"@ != "contentinfo"@) by {
        assert("list"@.len() != "contentinfo"@.len());
    }
    assert("listbox"@ != "contentinfo"@) by {
        assert("listbox"@.len() != "contentinfo"@.len());
    }
    assert("listitem"@ != "contentinfo"@) by {
        assert("listitem"@.len() != "contentinfo"@.len());
    }
    assert("log"@ != "contentinfo"@) by {
        assert("log"@.len() != "contentinfo"@.len());
    }
    assert("main"@ != "contentinfo"@) by {
        assert("main"@.len() != "contentinfo"@.len());
    }
    assert("marquee"@ != "contentinfo"@) by {
        assert("marquee"@.len() != "contentinfo"@.len());
    }
    assert("math"@ != "contentinfo"@) by {
        assert("math"@.len() != "contentinfo"@.len());
    }
    assert("menu"@ != "contentinfo"@) by {
        assert("menu"@.len() != "contentinfo"@.len());
    }
    assert("menubar"@ != "contentinfo"@) by {
        assert("menubar"@.len() != "contentinfo"@.len());
    }
    assert("menuitem"@ != "contentinfo"@) by {
        assert("menuitem"@.len() != "contentinfo"@.len());
    }
    assert("menuitemcheckbox"@ != "contentinfo"@) by {
        assert("menuitemcheckbox"@.len() != "contentinfo"@.len());
    }
    assert("menuitemradio"@ != "contentinfo"@) by {
        assert("menuitemradio"@.len() != "contentinfo"@.len());
    }
    assert("meter"@ != "contentinfo"@) by {
        assert("meter"@.len() != "contentinfo"@.len());
    }
    assert("navigation"@ != "contentinfo"@) by {
        assert("navigation"@.len() != "contentinfo"@.len());
    }
    assert("none"@ != "contentinfo"@) by {
        assert("none"@.len() != "contentinfo"@.len());
    }
    assert("note"@ != "contentinfo"@) by {
        assert("note"@.len() != "contentinfo"@.len());
    }
    assert("option"@ != "contentinfo"@) by {
        assert("option"@.len() != "contentinfo"@.len());
    }
    assert("presentation"@ != "contentinfo"@) by {
        assert("presentation"@.len() != "contentinfo"@.len());
    }
    assert("progressbar"@ != "contentinfo"@) by {
        assert("progressbar"@[0] != "contentinfo"@[0]);
    }
    assert("radio"@ != "contentinfo"@) by {
        assert("radio"@.len() != "contentinfo"@.len());
    }
    assert("radiogroup"@ != "contentinfo"@) by {
        assert("radiogroup"@.len() != "contentinfo"@.len());
    }
    assert("region"@ != "contentinfo"@) by {
        assert("region"@.len() != "contentinfo"@.len());
    }
    assert("row"@ != "contentinfo"@) by {
        assert("row"@.len() != "contentinfo"@.len());
    }
    assert("rowgroup"@ != "contentinfo"@) by {
        assert("rowgroup"@.len() != "contentinfo"@.len());
    }
    assert("rowheader"@ != "contentinfo"@) by {
        assert("rowheader"@.len() != "contentinfo"@.len());
    }
    assert("scrollbar"@ != "contentinfo"@) by {
        assert("scrollbar"@.len() != "contentinfo"@.len());
    }
    assert("search"@ != "contentinfo"@) by {
        assert("search"@.len() != "contentinfo"@.len());
    }
    assert("searchbox"@ != "contentinfo"@) by {
        assert("searchbox"@.len() != "contentinfo"@.len());
    }
    assert("separator"@ != "contentinfo"@) by {
        assert("separator"@.len() != "contentinfo"@.len());
    }
    assert("slider"@ != "contentinfo"@) by {
        assert("slider"@.len() != "contentinfo"@.len());
    }
    assert("spinbutton"@ != "contentinfo"@) by {
        assert("spinbutton"@.len() != "contentinfo"@.len());
    }
    assert("status"@ != "contentinfo"@) by {
        assert("status"@.len() != "contentinfo"@.len());
    }
    assert("switch"@ != "contentinfo"@) by {
        assert("switch"@.len() != "contentinfo"@.len());
    }
    assert("tab"@ != "contentinfo"@) by {
        assert("tab"@.len() != "contentinfo"@.len());
    }
    assert("table"@ != "contentinfo"@) by {
        assert("table"@.len() != "contentinfo"@.len());
    }
    assert("tablist"@ != "contentinfo"@) by {
        assert("tablist"@.len() != "contentinfo"@.len());
    }
    assert("tabpanel"@ != "contentinfo"@) by {
        assert("tabpanel"@.len() != "contentinfo"@.len());
    }
    assert("term"@ != "contentinfo"@) by {
        assert("term"@.len() != "contentinfo"@.len());
    }
    assert("textbox"@ != "contentinfo"@) by {
        assert("textbox"@.len() != "contentinfo"@.len());
    }
    assert("timer"@ != "contentinfo"@) by {
        assert("timer"@.len() != "contentinfo"@.len());
    }
    assert("toolbar"@ != "contentinfo"@) by {
        assert("toolbar"@.len() != "contentinfo"@.len());
    }
    assert("tooltip"@ != "contentinfo"@) by {
        assert("tooltip"@.len() != "contentinfo"@.len());
    }
    assert("tree"@ != "contentinfo"@) by {
        assert("tree"@.len() != "contentinfo"@.len());
    }
    assert("treegrid"@ != "contentinfo"@) by {
        assert("treegrid"@.len() != "contentinfo"@.len());
    }
    assert("treeitem"@ != "contentinfo"@) by {
        assert("treeitem"@.len() != "contentinfo"@.len());
    }
    assert("command"@ != "contentinfo"@) by {
        assert("command"@.len() != "contentinfo"@.len());
    }
    assert("composite"@ != "contentinfo"@) by {
        assert("composite"@.len() != "contentinfo"@.len());
    }
    assert("input"@ != "contentinfo"@) by {
        assert("input"@.len() != "contentinfo"@.len());
    }
    assert("landmark"@ != "contentinfo"@) by {
        assert("landmark"@.len() != "contentinfo"@.len());
    }
    assert("range"@ != "contentinfo"@) by {
        assert("range"@.len() != "contentinfo"@.len());
    }
    assert("roletype"@ != "contentinfo"@) by {
        assert("roletype"@.len() != "contentinfo"@.len());
    }
    assert("section"@ != "contentinfo"@) by {
        assert("section"@.len() != "contentinfo"@.len());
    }
    assert("sectionhead"@ != "contentinfo"@) by {
        assert("sectionhead"@[0] != "contentinfo"@[0]);
    }
    assert("select"@ != "contentinfo"@) by {
        assert("select"@.len() != "contentinfo"@.len());
    }
    assert("structure"@ != "contentinfo"@) by {
        assert("structure"@.len() != "contentinfo"@.len());
    }
    assert("widget"@ != "contentinfo"@) by {
        assert("widget"@.len() != "contentinfo"@.len());
    }
    assert("window"@ != "contentinfo"@) by {
        assert("window"@.len() != "contentinfo"@.len());
    }
}

proof fn role_name_unique_definition(b: Role)
    requires
        b.name_spec() == "definition"@,
    ensures
        b == Role::Definition,
{
    reveal_strlit("alert");
    reveal_strlit("alertdialog");
    reveal_strlit("application");
    reveal_strlit("article");
    reveal_strlit("banner");
    reveal_strlit("button");
    reveal_strlit("cell");
    reveal_strlit("checkbox");
    reveal_strlit("columnheader");
    reveal_strlit("combobox");
    reveal_strlit("complementary");
    reveal_strlit("contentinfo");
    reveal_strlit("definition");
    reveal_strlit("dialog");
    reveal_strlit("directory");
    reveal_strlit("document");
    reveal_strlit("feed");
    reveal_strlit("figure");
    reveal_strlit("form");
    reveal_strlit("grid");
    reveal_strlit("gridcell");
    reveal_strlit("group");
    reveal_strlit("heading");
    reveal_strlit("img");
    reveal_strlit("link");
    reveal_strlit("list");
    reveal_strlit("listbox");
    reveal_strlit("listitem");
    reveal_strlit("log");
    reveal_strlit("main");
    reveal_strlit("marquee");
    reveal_strlit("math");
    reveal_strlit("menu");
    reveal_strlit("menubar");
    reveal_strlit("menuitem");
    reveal_strlit("menuitemcheckbox");
    reveal_strlit("menuitemradio");
    reveal_strlit("meter");
    reveal_strlit("navigation");
    reveal_strlit("none");
    reveal_strlit("note");
    reveal_strlit("option");
    reveal_strlit("presentation");
    reveal_strlit("progressbar");
    reveal_strlit("radio");
    reveal_strlit("radiogroup");
    reveal_strlit("region");
    reveal_strlit("row");
    reveal_strlit("rowgroup");
    reveal_strlit("rowheader");
    reveal_strlit("scrollbar");
    reveal_strlit("search");
    reveal_strlit("searchbox");
    reveal_strlit("separator");
    reveal_strlit("slider");
    reveal_strlit("spinbutton");
    reveal_strlit("status");
    reveal_strlit("switch");
    reveal_strlit("tab");
    reveal_strlit("table");
    reveal_strlit("tablist");
    reveal_strlit("tabpanel");
    reveal_strlit("term");
    reveal_strlit("textbox");
    reveal_strlit("timer");
    reveal_strlit("toolbar");
    reveal_strlit("tooltip");
    reveal_strlit("tree");
    reveal_strlit("treegrid");
    reveal_strlit("treeitem");
    reveal_strlit("command");
    reveal_strlit("composite");
    reveal_strlit("input");
    reveal_strlit("landmark");
    reveal_strlit("range");
    reveal_strlit("roletype");
    reveal_strlit("section");
    reveal_strlit("sectionhead");
    reveal_strlit("select");
    reveal_strlit("structure");
    reveal_strlit("widget");
    reveal_strlit("window");
    assert("alert"@ != "definition"@) by {
        assert("alert"@.len() != "definition"@.len());
    }
    assert("alertdialog"@ != "definition"@) by {
        assert("alertdialog"@.len() != "definition"@.len());
    }
    assert("application"@ != "definition"@) by {
        assert("application"@.len() != "definition"@.len());
    }
    assert("article"@ != "definition"@) by {
        assert("article"@.len() != "definition"@.len());
    }
    assert("banner"@ != "definition"@) by {
        assert("banner"@.len() != "definition"@.len());
    }
    assert("button"@ != "definition"@) by {
        assert("button"@.len() != "definition"@.len());
    }
    assert("cell"@ != "definition"@) by {
        assert("cell"@.len() != "definition"@.len());
    }
    assert("checkbox"@ != "definition"@) by {
        assert("checkbox"@.len() != "definition"@.len());
    }
    assert("columnheader"@ != "definition"@) by {
        assert("columnheader"@.len() != "definition"@.len());
    }
    assert("combobox"@ != "definition"@) by {
        assert("combobox"@.len() != "definition"@.len());
    }
    assert("complementary"@ != "definition"@) by {
        assert("complementary"@.len() != "definition"@.len());
    }
    assert("contentinfo"@ != "definition"@) by {
        assert("contentinfo"@.len() != "definition"@.len());
    }
    assert("dialog"@ != "definition"@) by {
        assert("dialog"@.len() != "definition"@.len());
    }
    assert("directory"@ != "definition"@) by {
        assert("directory"@.len() != "definition"@.len());
    }
    assert("document"@ != "definition"@) by {
        assert("document"@.len() != "definition"@.len());
    }
    assert("feed"@ != "definition"@) by {
        assert("feed"@.len() != "definition"@.len());
    }
    assert("figure"@ != "definition"@) by {
        assert("figure"@.len() != "definition"@.len());
    }
    assert("form"@ != "definition"@) by {
        assert("form"@.len() != "definition"@.len());
    }
    assert("grid"@ != "definition"@) by {
        assert("grid"@.len() != "definition"@.len());
    }
    assert("gridcell"@ != "definition"@) by {
        assert("gridcell"@.len() != "definition"@.len());
    }
    assert("group"@ != "definition"@) by {
        assert("group"@.len() != "definition"@.len());
    }
    assert("heading"@ != "definition"@) by {
        assert("heading"@.len() != "definition"@.len());
    }
    assert("img"@ != "definition"@) by {
        assert("img"@.len() != "definition"@.len());
    }
    assert("link"@ != "definition"@) by {
        assert("link"@.len() != "definition"@.len());
    }
    assert("list"@ != "definition"@) by {
        assert("list"@.len() != "definition"@.len());
    }
    assert("listbox"@ != "definition"@) by {
        assert("listbox"@.len() != "definition"@.len());
    }
    assert("listitem"@ != "definition"@) by {
        assert("listitem"@.len() != "definition"@.len());
    }
    assert("log"@ != "definition"@) by {
        assert("log"@.len() != "definition"@.len());
    }
    assert("main"@ != "definition"@) by {
        assert("main"@.len() != "definition"@.len());
    }
    assert("marquee"@ != "definition"@) by {
        assert("marquee"@.len() != "definition"@.len());
    }
    assert("math"@ != "definition"@) by {
        assert("math"@.len() != "definition"@.len());
    }
    assert("menu"@ != "definition"@) by {
        assert("menu"@.len() != "definition"@.len());
    }
    assert("menubar"@ != "definition"@) by {
        assert("menubar"@.len() != "definition"@.len());
    }
    assert("menuitem"@ != "definition"@) by {
        assert("menuitem"@.len() != "definition"@.len());
    }
    assert("menuitemcheckbox"@ != "definition"@) by {
        assert("menuitemcheckbox"@.len() != "definition"@.len());
    }
    assert("menuitemradio"@ != "definition"@) by {
        assert("menuitemradio"@.len() != "definition"@.len());
    }
    assert("meter"@ != "definition"@) by {
        assert("meter"@.len() != "definition"@.len());
    }
    assert("navigation"@ != "definition"@) by {
        assert("navigation"@[0] != "definition"@[0]);
    }
    assert("none"@ != "definition"@) by {
        assert("none"@.len() != "definition"@.len());
    }
    assert("note"@ != "definition"@) by {
        assert("note"@.len() != "definition"@.len());
    }
    assert("option"@ != "definition"@) by {
        assert("option"@.len() != "definition"@.len());
    }
    assert("presentation"@ != "definition"@) by {
        assert("presentation"@.len() != "definition"@.len());
    }
    assert("progressbar"@ != "definition"@) by {
        assert("progressbar"@.len() != "definition"@.len());
    }
    assert("radio"@ != "definition"@) by {
        assert("radio"@.len() != "definition"@.len());
    }
    assert("radiogroup"@ != "definition"@) by {
        assert("radiogroup"@[0] != "definition"@[0]);
    }
    assert("region"@ != "definition"@) by {
        assert("region"@.len() != "definition"@.len());
    }
    assert("row"@ != "definition"@) by {
        assert("row"@.len() != "definition"@.len());
    }
    assert("rowgroup"@ != "definition"@) by {
        assert("rowgroup"@.len() != "definition"@.len());
    }
    assert("rowheader"@ != "definition"@) by {
        assert("rowheader"@.len() != "definition"@.len());
    }
    assert("scrollbar"@ != "definition"@) by {
        assert("scrollbar"@.len() != "definition"@.len());
    }
    assert("search"@ != "definition"@) by {
        assert("search"@.len() != "definition"@.len());
    }
    assert("searchbox"@ != "definition"@) by {
        assert("searchbox"@.len() != "definition"@.len());
    }
    assert("separator"@ != "definition"@) by {
        assert("separator"@.len() != "definition"@.len());
    }
    assert("slider"@ != "definition"@) by {
        assert("slider"@.len() != "definition"@.len());
    }
    assert("spinbutton"@ != "definition"@) by {
        assert("spinbutton"@[0] != "definition"@[0]);
    }
    assert("status"@ != "definition"@) by {
        assert("status"@.len() != "definition"@.len());
    }
    assert("switch"@ != "definition"@) by {
        assert("switch"@.len() != "definition"@.len());
    }
    assert("tab"@ != "definition"@) by {
        assert("tab"@.len() != "definition"@.len());
    }
    assert("table"@ != "definition"@) by {
        assert("table"@.len() != "definition"@.len());
    }
    assert("tablist"@ != "definition"@) by {
        assert("tablist"@.len() != "definition"@.len());
    }
    assert("tabpanel"@ != "definition"@) by {
        assert("tabpanel"@.len() != "definition"@.len());
    }
    assert("term"@ != "definition"@) by {
        assert("term"@.len() != "definition"@.len());
    }
    assert("textbox"@ != "definition"@) by {
        assert("textbox"@.len() != "definition"@.len());
    }
    assert("timer"@ != "definition"@) by {
        assert("timer"@.len() != "definition"@.len());
    }
    assert("toolbar"@ != "definition"@) by {
        assert("toolbar"@.len() != "definition"@.len());
    }
    assert("tooltip"@ != "definition"@) by {
        assert("tooltip"@.len() != "definition"@.len());
    }
    assert("tree"@ != "definition"@) by {
        assert("tree"@.len() != "definition"@.len());
    }
    assert("treegrid"@ != "definition"@) by {
        assert("treegrid"@.len() != "definition"@.len());
    }
    assert("treeitem"@ != "definition"@) by {
        assert("treeitem"@.len() != "definition"@.len());
    }
    assert("command"@ != "definition"@) by {
        assert("command"@.len() != "definition"@.len());
    }
    assert("composite"@ != "definition"@) by {
        assert("composite"@.len() != "definition"@.len());
    }
    assert("input"@ != "definition"@) by {
        assert("input"@.len() != "definition"@.len());
    }
    assert("landmark"@ != "definition"@) by {
        assert("landmark"@.len() != "definition"@.len());
    }
    assert("range"@ != "definition"@) by {
        assert("range"@.len() != "definition"@.len());
    }
    assert("roletype"@ != "definition"@) by {
        assert("roletype"@.len() != "definition"@.len());
    }
    assert("section"@ != "definition"@) by {
        assert("section"@.len() != "definition"@.len());
    }
    assert("sectionhead"@ != "definition"@) by {
        assert("sectionhead"@.len() != "definition"@.len());
    }
    assert("select"@ != "definition"@) by {
        assert("select"@.len() != "definition"@.len());
    }
    assert("structure"@ != "definition"@) by {
        assert("structure"@.len() != "definition"@.len());
    }
    assert("widget"@ != "definition"@) by {
        assert("widget"@.len() != "definition"@.len());
    }
    assert("window"@ != "definition"@) by {
        assert("window"@.len() != "definition"@.len());
    }
}

proof fn role_name_unique_dialog(b: Role)
    requires
        b.name_spec() == "dialog"@,
    ensures
        b == Role::Dialog,
{
    reveal_strlit("alert");
    reveal_strlit("alertdialog");
    reveal_strlit("application");
    reveal_strlit("article");
    reveal_strlit("banner");
    reveal_strlit("button");
    reveal_strlit("cell");
    reveal_strlit("checkbox");
    reveal_strlit("columnheader");
    reveal_strlit("combobox");
    reveal_strlit("complementary");
    reveal_strlit("contentinfo");
    reveal_strlit("definition");
    reveal_strlit("dialog");
    reveal_strlit("directory");
    reveal_strlit("document");
    reveal_strlit("feed");
    reveal_strlit("figure");
    reveal_strlit("form");
    reveal_strlit("grid");
    reveal_strlit("gridcell");
    reveal_strlit("group");
    reveal_strlit("heading");
    reveal_strlit("img");
    reveal_strlit("link");
    reveal_strlit("list");
    reveal_strlit("listbox");
    reveal_strlit("listitem");
    reveal_strlit("log");
    reveal_strlit("main");
    reveal_strlit("marquee");
    reveal_strlit("math");
    reveal_strlit("menu");
    reveal_strlit("menubar");
    reveal_strlit("menuitem");
    reveal_strlit("menuitemcheckbox");
    reveal_strlit("menuitemradio");
    reveal_strlit("meter");
    reveal_strlit("navigation");
    reveal_strlit("none");
    reveal_strlit("note");
    reveal_strlit("option");
    reveal_strlit("presentation");
    reveal_strlit("progressbar");
    reveal_strlit("radio");
    reveal_strlit("radiogroup");
    reveal_strlit("region");
    reveal_strlit("row");
    reveal_strlit("rowgroup");
    reveal_strlit("rowheader");
    reveal_strlit("scrollbar");
    reveal_strlit("search");
    reveal_strlit("searchbox");
    reveal_strlit("separator");
    reveal_strlit("slider");
    reveal_strlit("spinbutton");
    reveal_strlit("status");
    reveal_strlit("switch");
    reveal_strlit("tab");
    reveal_strlit("table");
    reveal_strlit("tablist");
    reveal_strlit("tabpanel");
    reveal_strlit("term");
    reveal_strlit("textbox");
    reveal_strlit("timer");
    reveal_strlit("toolbar");
    reveal_strlit("tooltip");
    reveal_strlit("tree");
    reveal_strlit("treegrid");
    reveal_strlit("treeitem");
    reveal_strlit("command");
    reveal_strlit("composite");
    reveal_strlit("input");
    reveal_strlit("landmark");
    reveal_strlit("range");
    reveal_strlit("roletype");
    reveal_strlit("section");
    reveal_strlit("sectionhead");
    reveal_strlit("select");
    reveal_strlit("structure");
    reveal_strlit("widget");
    reveal_strlit("window");
    assert("alert"@ != "dialog"@) by {
        assert("alert"@.len() != "dialog"@.len());
    }
    assert("alertdialog"@ != "dialog"@) by {
        assert("alertdialog"@.len() != "dialog"@.len());
    }
    assert("application"@ != "dialog"@) by {
        assert("application"@.len() != "dialog"@.len());
    }
    assert("article"@ != "dialog"@) by {
        assert("article"@.len() != "dialog"@.len());
    }
    assert("banner"@ != "dialog"@) by {
        assert("banner"@[0] != "dialog"@[0]);
    }
    assert("button"@ != "dialog"@) by {
        assert("button"@[0] != "dialog"@[0]);
    }
    assert("cell"@ != "dialog"@) by {
        assert("cell"@.len() != "dialog"@.len());
    }
    assert("checkbox"@ != "dialog"@) by {
        assert("checkbox"@.len() != "dialog"@.len());
    }
    assert("columnheader"@ != "dialog"@) by {
        assert("columnheader"@.len() != "dialog"@.len());
    }
    assert("combobox"@ != "dialog"@) by {
        assert("combobox"@.len() != "dialog"@.len());
    }
    assert("complementary"@ != "dialog"@) by {
        assert("complementary"@.len() != "dialog"@.len());
    }
    assert("contentinfo"@ != "dialog"@) by {
        assert("contentinfo"@.len() != "dialog"@.len());
    }
    assert("definition"@ != "dialog"@) by {
        assert("definition"@.len() != "dialog"@.len());
    }
    assert("directory"@ != "dialog"@) by {
        assert("directory"@.len() != "dialog"@.len());
    }
    assert("document"@ != "dialog"@) by {
        assert("document"@.len() != "dialog"@.len());
    }
    assert("feed"@ != "dialog"@) by {
        assert("feed"@.len() != "dialog"@.len());
    }
    assert("figure"@ != "dialog"@) by {
        assert("figure"@[0] != "dialog"@[0]);
    }
    assert("form"@ != "dialog"@) by {
        assert("form"@.len() != "dialog"@.len());
    }
    assert("grid"@ != "dialog"@) by {
        assert("grid"@.len() != "dialog"@.len());
    }
    assert("gridcell"@ != "dialog"@) by {
        assert("gridcell"@.len() != "dialog"@.len());
    }
    assert("group"@ != "dialog"@) by {
        assert("group"@.len() != "dialog"@.len());
    }
    assert("heading"@ != "dialog"@) by {
        assert("heading"@.len() != "dialog"@.len());
    }
    assert("img"@ != "dialog"@) by {
        assert("img"@.len() != "dialog"@.len());
    }
    assert("link"@ != "dialog"@) by {
        assert("link"@.len() != "dialog"@.len());
    }
    assert("list"@ != "dialog"@) by {
        assert("list"@.len() != "dialog"@.len());
    }
    assert("listbox"@ != "dialog"@) by {
        assert("listbox"@.len() != "dialog"@.len());
    }
    assert("listitem"@ != "dialog"@) by {
        assert("listitem"@.len() != "dialog"@.len());
    }
    assert("log"@ != "dialog"@) by {
        assert("log"@.len() != "dialog"@.len());
    }
    assert("main"@ != "dialog"@) by {
        assert("main"@.len() != "dialog"@.len());
    }
    assert("marquee"@ != "dialog"@) by {
        assert("marquee"@.len() != "dialog"@.len());
    }
    assert("math"@ != "dialog"@) by {
        assert("math"@.len() != "dialog"@.len());
    }
    assert("menu"@ != "dialog"@) by {
        assert("menu"@.len() != "dialog"@.len());
    }
    assert("menubar"@ != "dialog"@) by {
        assert("menubar"@.len() != "dialog"@.len());
    }
    assert("menuitem"@ != "dialog"@) by {
        assert("menuitem"@.len() != "dialog"@.len());
    }
    assert("menuitemcheckbox"@ != "dialog"@) by {
        assert("menuitemcheckbox"@.len() != "dialog"@.len());
    }
    assert("menuitemradio"@ != "dialog"@) by {
        assert("menuitemradio"@.len() != "dialog"@.len());
    }
    assert("meter"@ != "dialog"@) by {
        assert("meter"@.len() != "dialog"@.len());
    }
    assert("navigation"@ != "dialog"@) by {
        assert("navigation"@.len() != "dialog"@.len());
    }
    assert("none"@ != "dialog"@) by {
        assert("none"@.len() != "dialog"@.len());
    }
    assert("note"@ != "dialog"@) by {
        assert("note"@.len() != "dialog"@.len());
    }
    assert("option"@ != "dialog"@) by {
        assert("option"@[0] != "dialog"@[0]);
    }
    assert("presentation"@ != "dialog"@) by {
        assert("presentation"@.len() != "dialog"@.len());
    }
    assert("progressbar"@ != "dialog"@) by {
        assert("progressbar"@.len() != "dialog"@.len());
    }
    assert("radio"@ != "dialog"@) by {
        assert("radio"@.len() != "dialog"@.len());
    }
    assert("radiogroup"@ != "dialog"@) by {
        assert("radiogroup"@.len() != "dialog"@.len());
    }
    assert("region"@ != "dialog"@) by {
        assert("region"@[0] != "dialog"@[0]);
    }
    assert("row"@ != "dialog"@) by {
        assert("row"@.len() != "dialog"@.len());
    }
    assert("rowgroup"@ != "dialog"@) by {
        assert("rowgroup"@.len() != "dialog"@.len());
    }
    assert("rowheader"@ != "dialog"@) by {
        assert("rowheader"@.len() != "dialog"@.len());
    }
    assert("scrollbar"@ != "dialog"@) by {
        assert("scrollbar"@.len() != "dialog"@.len());
    }
    assert("search"@ != "dialog"@) by {
        assert("search"@[0] != "dialog"@[0]);
    }
    assert("searchbox"@ != "dialog"@) by {
        assert("searchbox"@.len() != "dialog"@.len());
    }
    assert("separator"@ != "dialog"@) by {
        assert("separator"@.len() != "dialog"@.len());
    }
    assert("slider"@ != "dialog"@) by {
        assert("slider"@[0] != "dialog"@[0]);
    }
    assert("spinbutton"@ != "dialog"@) by {
        assert("spinbutton"@.len() != "dialog"@.len());
    }
    assert("status"@ != "dialog"@) by {
        assert("status"@[0] != "dialog"@[0]);
    }
    assert("switch"@ != "dialog"@) by {
        assert("switch"@[0] != "dialog"@[0]);
    }
    assert("tab"@ != "dialog"@) by {
        assert("tab"@.len() != "dialog"@.len());
    }
    assert("table"@ != "dialog"@) by {
        assert("table"@.len() != "dialog"@.len());
    }
    assert("tablist"@ != "dialog"@) by {
        assert("tablist"@.len() != "dialog"@.len());
    }
    assert("tabpanel"@ != "dialog"@) by {
        assert("tabpanel"@.len() != "dialog"@.len());
    }
    assert("term"@ != "dialog"@) by {
        assert("term"@.len() != "dialog"@.len());
    }
    assert("textbox"@ != "dialog"@) by {
        assert("textbox"@.len() != "dialog"@.len());
    }
    assert("timer"@ != "dialog"@) by {
        assert("timer"@.len() != "dialog"@.len());
    }
    assert("toolbar"@ != "dialog"@) by {
        assert("toolbar"@.len() != "dialog"@.len());
    }
    assert("tooltip"@ != "dialog"@) by {
        assert("tooltip"@.len() != "dialog"@.len());
    }
    assert("tree"@ != "dialog"@) by {
        assert("tree"@.len() != "dialog"@.len());
    }
    assert("treegrid"@ != "dialog"@) by {
        assert("treegrid"@.len() != "dialog"@.len());
    }
    assert("treeitem"@ != "dialog"@) by {
        assert("treeitem"@.len() != "dialog"@.len());
    }
    assert("command"@ != "dialog"@) by {
        assert("command"@.len() != "dialog"@.len());
    }
    assert("composite"@ != "dialog"@) by {
        assert("composite"@.len() != "dialog"@.len());
    }
    assert("input"@ != "dialog"@) by {
        assert("input"@.len() != "dialog"@.len());
    }
    assert("landmark"@ != "dialog"@) by {
        assert("landmark"@.len() != "dialog"@.len());
    }
    assert("range"@ != "dialog"@) by {
        assert("range"@.len() != "dialog"@.len());
    }
    assert("roletype"@ != "dialog"@) by {
        assert("roletype"@.len() != "dialog"@.len());
    }
    assert("section"@ != "dialog"@) by {
        assert("section"@.len() != "dialog"@.len());
    }
    assert("sectionhead"@ != "dialog"@) by {
        assert("sectionhead"@.len() != "dialog"@.len());
    }
    assert("select"@ != "dialog"@) by {
        assert("select"@[0] != "dialog"@[0]);
    }
    assert("structure"@ != "dialog"@) by {
        assert("structure"@.len() != "dialog"@.len());
    }
    assert("widget"@ != "dialog"@) by {
        assert("widget"@[0] != "dialog"@[0]);
    }
    assert("window"@ != "dialog"@) by {
        assert("window"@[0] != "dialog"@[0]);
    }
}

proof fn role_name_unique_directory(b: Role)
    requires
        b.name_spec() == "directory"@,
    ensures
        b == Role::Directory,
{
    reveal_strlit("alert");
    reveal_strlit("alertdialog");
    reveal_strlit("application");
    reveal_strlit("article");
    reveal_strlit("banner");
    reveal_strlit("button");
    reveal_strlit("cell");
    reveal_strlit("checkbox");
    reveal_strlit("columnheader");
    reveal_strlit("combobox");
    reveal_strlit("complementary");
    reveal_strlit("contentinfo");
    reveal_strlit("definition");
    reveal_strlit("dialog");
    reveal_strlit("directory");
    reveal_strlit("document");
    reveal_strlit("feed");
    reveal_strlit("figure");
    reveal_strlit("form");
    reveal_strlit("grid");
    reveal_strlit("gridcell");
    reveal_strlit("group");
    reveal_strlit("heading");
    reveal_strlit("img");
    reveal_strlit("link");
    reveal_strlit("list");
    reveal_strlit("listbox");
    reveal_strlit("listitem");
    reveal_strlit("log");
    reveal_strlit("main");
    reveal_strlit("marquee");
    reveal_strlit("math");
    reveal_strlit("menu");
    reveal_strlit("menubar");
    reveal_strlit("menuitem");
    reveal_strlit("menuitemcheckbox");
    reveal_strlit("menuitemradio");
    reveal_strlit("meter");
    reveal_strlit("navigation");
    reveal_strlit("none");
    reveal_strlit("note");
    reveal_strlit("option");
    reveal_strlit("presentation");
    reveal_strlit("progressbar");
    reveal_strlit("radio");
    reveal_strlit("radiogroup");
    reveal_strlit("region");
    reveal_strlit("row");
    reveal_strlit("rowgroup");
    reveal_strlit("rowheader");
    reveal_strlit("scrollbar");
    reveal_strlit("search");
    reveal_strlit("searchbox");
    reveal_strlit("separator");
    reveal_strlit("slider");
    reveal_strlit("spinbutton");
    reveal_strlit("status");
    reveal_strlit("switch");
    reveal_strlit("tab");
    reveal_strlit("table");
    reveal_strlit("tablist");
    reveal_strlit("tabpanel");
    reveal_strlit("term");
    reveal_strlit("textbox");
    reveal_strlit("timer");
    reveal_strlit("toolbar");
    reveal_strlit("tooltip");
    reveal_strlit("tree");
    reveal_strlit("treegrid");
    reveal_strlit("treeitem");
    reveal_strlit("command");
    reveal_strlit("composite");
    reveal_strlit("input");
    reveal_strlit("landmark");
    reveal_strlit("range");
    reveal_strlit("roletype");
    reveal_strlit("section");
    reveal_strlit("sectionhead");
    reveal_strlit("select");
    reveal_strlit("structure");
    reveal_strlit("widget");
    reveal_strlit("window");
    assert("alert"@ != "directory"@) by {
        assert("alert"@.len() != "directory"@.len());
    }
    assert("alertdialog"@ != "directory"@) by {
        assert("alertdialog"@.len() != "directory"@.len());
    }
    assert("application"@ != "directory"@) by {
        assert("application"@.len() != "directory"@.len());
    }
    assert("article"@ != "directory"@) by {
        assert("article"@.len() != "directory"@.len());
    }
    assert("banner"@ != "directory"@) by {
        assert("banner"@.len() != "directory"@.len());
    }
    assert("button"@ != "directory"@) by {
        assert("button"@.len() != "directory"@.len());
    }
    assert("cell"@ != "directory"@) by {
        assert("cell"@.len() != "directory"@.len());
    }
    assert("checkbox"@ != "directory"@) by {
        assert("checkbox"@.len() != "directory"@.len());
    }
    assert("columnheader"@ != "directory"@) by {
        assert("columnheader"@.len() != "directory"@.len());
    }
    assert("combobox"@ != "directory"@) by {
        assert("combobox"@.len() != "directory"@.len());
    }
    assert("complementary"@ != "directory"@) by {
        assert("complementary"@.len() != "directory"@.len());
    }
    assert("contentinfo"@ != "directory"@) by {
        assert("contentinfo"@.len() != "directory"@.len());
    }
    assert("definition"@ != "directory"@) by {
        assert("definition"@.len() != "directory"@.len());
    }
    assert("dialog"@ != "directory"@) by {
        assert("dialog"@.len() != "directory"@.len());
    }
    assert("document"@ != "directory"@) by {
        assert("document"@.len() != "directory"@.len());
    }
    assert("feed"@ != "directory"@) by {
        assert("feed"@.len() != "directory"@.len());
    }
    assert("figure"@ != "directory"@) by {
        assert("figure"@.len() != "directory"@.len());
    }
    assert("form"@ != "directory"@) by {
        assert("form"@.len() != "directory"@.len());
    }
    assert("grid"@ != "directory"@) by {
        assert("grid"@.len() != "directory"@.len());
    }
    assert("gridcell"@ != "directory"@) by {
        assert("gridcell"@.len() != "directory"@.len());
    }
    assert("group"@ != "directory"@) by {
        assert("group"@.len() != "directory"@.len());
    }
    assert("heading"@ != "directory"@) by {
        assert("heading"@.len() != "directory"@.len());
    }
    assert("img"@ != "directory"@) by {
        assert("img"@.len() != "directory"@.len());
    }
    assert("link"@ != "directory"@) by {
        assert("link"@.len() != "directory"@.len());
    }
    assert("list"@ != "directory"@) by {
        assert("list"@.len() != "directory"@.len());
    }
    assert("listbox"@ != "directory"@) by {
        assert("listbox"@.len() != "directory"@.len());
    }
    assert("listitem"@ != "directory"@) by {
        assert("listitem"@.len() != "directory"@.len());
    }
    assert("log"@ != "directory"@) by {
        assert("log"@.len() != "directory"@.len());
    }
    assert("main"@ != "directory"@) by {
        assert("main"@.len() != "directory"@.len());
    }
    assert("marquee"@ != "directory"@) by {
        assert("marquee"@.len() != "directory"@.len());
    }
    assert("math"@ != "directory"@) by {
        assert("math"@.len() != "directory"@.len());
    }
    assert("menu"@ != "directory"@) by {
        assert("menu"@.len() != "directory"@.len());
    }
    assert("menubar"@ != "directory"@) by {
        assert("menubar"@.len() != "directory"@.len());
    }
    assert("menuitem"@ != "directory"@) by {
        assert("menuitem"@.len() != "directory"@.len());
    }
    assert("menuitemcheckbox"@ != "directory"@) by {
        assert("menuitemcheckbox"@.len() != "directory"@.len());
    }
    assert("menuitemradio"@ != "directory"@) by {
        assert("menuitemradio"@.len() != "directory"@.len());
    }
    assert("meter"@ != "directory"@) by {
        assert("meter"@.len() != "directory"@.len());
    }
    assert("navigation"@ != "directory"@) by {
        assert("navigation"@.len() != "directory"@.len());
    }
    assert("none"@ != "directory"@) by {
        assert("none"@.len() != "directory"@.len());
    }
    assert("note"@ != "directory"@) by {
        assert("note"@.len() != "directory"@.len());
    }
    assert("option"@ != "directory"@) by {
        assert("option"@.len() != "directory"@.len());
    }
    assert("presentation"@ != "directory"@) by {
        assert("presentation"@.len() != "directory"@.len());
    }
    assert("progressbar"@ != "directory"@) by {
        assert("progressbar"@.len() != "directory"@.len());
    }
    assert("radio"@ != "directory"@) by {
        assert("radio"@.len() != "directory"@.len());
    }
    assert("radiogroup"@ != "directory"@) by {
        assert("radiogroup"@.len() != "directory"@.len());
    }
    assert("region"@ != "directory"@) by {
        assert("region"@.len() != "directory"@.len());
    }
    assert("row"@ != "directory"@) by {
        assert("row"@.len() != "directory"@.len());
    }
    assert("rowgroup"@ != "directory"@) by {
        assert("rowgroup"@.len() != "directory"@.len());
    }
    assert("rowheader"@ != "directory"@) by {
        assert("rowheader"@[0] != "directory"@[0]);
    }
    assert("scrollbar"@ != "directory"@) by {
        assert("scrollbar"@[0] != "directory"@[0]);
    }
    assert("search"@ != "directory"@) by {
        assert("search"@.len() != "directory"@.len());
    }
    assert("searchbox"@ != "directory"@) by {
        assert("searchbox"@[0] != "directory"@[0]);
    }
    assert("separator"@ != "directory"@) by {
        assert("separator"@[0] != "directory"@[0]);
    }
    assert("slider"@ != "directory"@) by {
        assert("slider"@.len() != "directory"@.len());
    }
    assert("spinbutton"@ != "directory"@) by {
        assert("spinbutton"@.len() != "directory"@.len());
    }
    assert("status"@ != "directory"@) by {
        assert("status"@.len() != "directory"@.len());
    }
    assert("switch"@ != "directory"@) by {
        assert("switch"@.len() != "directory"@.len());
    }
    assert("tab"@ != "directory"@) by {
        assert("tab"@.len() != "directory"@.len());
    }
    assert("table"@ != "directory"@) by {
        assert("table"@.len() != "directory"@.len());
    }
    assert("tablist"@ != "directory"@) by {
        assert("tablist"@.len() != "directory"@.len());
    }
    assert("tabpanel"@ != "directory"@) by {
        assert("tabpanel"@.len() != "directory"@.len());
    }
    assert("term"@ != "directory"@) by {
        assert("term"@.len() != "directory"@.len());
    }
    assert("textbox"@ != "directory"@) by {
        assert("textbox"@.len() != "directory"@.len());
    }
    assert("timer"@ != "directory"@) by {
        assert("timer"@.len() != "directory"@.len());
    }
    assert("toolbar"@ != "directory"@) by {
        assert("toolbar"@.len() != "directory"@.len());
    }
    assert("tooltip"@ != "directory"@) by {
        assert("tooltip"@.len() != "directory"@.len());
    }
    assert("tree"@ != "directory"@) by {
        assert("tree"@.len() != "directory"@.len());
    }
    assert("treegrid"@ != "directory"@) by {
        assert("treegrid"@.len() != "directory"@.len());
    }
    assert("treeitem"@ != "directory"@) by {
        assert("treeitem"@.len() != "directory"@.len());
    }
    assert("command"@ != "directory"@) by {
        assert("command"@.len() != "directory"@.len());
    }
    assert("composite"@ != "directory"@) by {
        assert("composite"@[0] != "directory"@[0]);
    }
    assert("input"@ != "directory"@) by {
        assert("input"@.len() != "directory"@.len());
    }
    assert("landmark"@ != "directory"@) by {
        assert("landmark"@.len() != "directory"@.len());
    }
    assert("range"@ != "directory"@) by {
        assert("range"@.len() != "directory"@.len());
    }
    assert("roletype"@ != "directory"@) by {
        assert("roletype"@.len() != "directory"@.len());
    }
    assert("section"@ != "directory"@) by {
        assert("section"@.len() != "directory"@.len());
    }
    assert("sectionhead"@ != "directory"@) by {
        assert("sectionhead"@.len() != "directory"@.len());
    }
    assert("select"@ != "directory"@) by {
        assert("select"@.len() != "directory"@.len());
    }
    assert("structure"@ != "directory"@) by {
        assert("structure"@[0] != "directory"@[0]);
    }
    assert("widget"@ != "directory"@) by {
        assert("widget"@.len() != "directory"@.len());
    }
    assert("window"@ != "directory"@) by {
        assert("window"@.len() != "directory"@.len());
    }
}

proof fn role_name_unique_document(b: Role)
    requires
        b.name_spec() == "document"@,
    ensures
        b == Role::Document,
{
    reveal_strlit("alert");
    reveal_strlit("alertdialog");
    reveal_strlit("application");
    reveal_strlit("article");
    reveal_strlit("banner");
    reveal_strlit("button");
    reveal_strlit("cell");
    reveal_strlit("checkbox");
    reveal_strlit("columnheader");
    reveal_strlit("combobox");
    reveal_strlit("complementary");
    reveal_strlit("contentinfo");
    reveal_strlit("definition");
    reveal_strlit("dialog");
    reveal_strlit("directory");
    reveal_strlit("document");
    reveal_strlit("feed");
    reveal_strlit("figure");
    reveal_strlit("form");
    reveal_strlit("grid");
    reveal_strlit("gridcell");
    reveal_strlit("group");
    reveal_strlit("heading");
    reveal_strlit("img");
    reveal_strlit("link");
    reveal_strlit("list");
    reveal_strlit("listbox");
    reveal_strlit("listitem");
    reveal_strlit("log");
    reveal_strlit("main");
    reveal_strlit("marquee");
    reveal_strlit("math");
    reveal_strlit("menu");
    reveal_strlit("menubar");
    reveal_strlit("menuitem");
    reveal_strlit("menuitemcheckbox");
    reveal_strlit("menuitemradio");
    reveal_strlit("meter");
    reveal_strlit("navigation");
    reveal_strlit("none");
    reveal_strlit("note");
    reveal_strlit("option");
    reveal_strlit("presentation");
    reveal_strlit("progressbar");
    reveal_strlit("radio");
    reveal_strlit("radiogroup");
    reveal_strlit("region");
    reveal_strlit("row");
    reveal_strlit("rowgroup");
    reveal_strlit("rowheader");
    reveal_strlit("scrollbar");
    reveal_strlit("search");
    reveal_strlit("searchbox");
    reveal_strlit("separator");
    reveal_strlit("slider");
    reveal_strlit("spinbutton");
    reveal_strlit("status");
    reveal_strlit("switch");
    reveal_strlit("tab");
    reveal_strlit("table");
    reveal_strlit("tablist");
    reveal_strlit("tabpanel");
    reveal_strlit("term");
    reveal_strlit("textbox");
    reveal_strlit("timer");
    reveal_strlit("toolbar");
    reveal_strlit("tooltip");
    reveal_strlit("tree");
    reveal_strlit("treegrid");
    reveal_strlit("treeitem");
    reveal_strlit("command");
    reveal_strlit("composite");
    reveal_strlit("input");
    reveal_strlit("landmark");
    reveal_strlit("range");
    reveal_strlit("roletype");
    reveal_strlit("section");
    reveal_strlit("sectionhead");
    reveal_strlit("select");
    reveal_strlit("structure");
    reveal_strlit("widget");
    reveal_strlit("window");
    assert("alert"@ != "document"@) by {
        assert("alert"@.len() != "document"@.len());
    }
    assert("alertdialog"@ != "document"@) by {
        assert("alertdialog"@.len() != "document"@.len());
    }
    assert("application"@ != "document"@) by {
        assert("application"@.len() != "document"@.len());
    }
    assert("article"@ != "document"@) by {
        assert("article"@.len() != "document"@.len());
    }
    assert("banner"@ != "document"@) by {
        assert("banner"@.len() != "document"@.len());
    }
    assert("button"@ != "document"@) by {
        assert("button"@.len() != "document"@.len());
    }
    assert("cell"@ != "document"@) by {
        assert("cell"@.len() != "document"@.len());
    }
    assert("checkbox"@ != "document"@) by {
        assert("checkbox"@[0] != "document"@[0]);
    }
    assert("columnheader"@ != "document"@) by {
        assert("columnheader"@.len() != "document"@.len());
    }
    assert("combobox"@ != "document"@) by {
        assert("combobox"@[0] != "document"@[0]);
    }
    assert("complementary"@ != "document"@) by {
        assert("complementary"@.len() != "document"@.len());
    }
    assert("contentinfo"@ != "document"@) by {
        assert("contentinfo"@.len() != "document"@.len());
    }
    assert("definition"@ != "document"@) by {
        assert("definition"@.len() != "document"@.len());
    }
    assert("dialog"@ != "document"@) by {
        assert("dialog"@.len() != "document"@.len());
    }
    assert("directory"@ != "document"@) by {
        assert("directory"@.len() != "document"@.len());
    }
    assert("feed"@ != "document"@) by {
        assert("feed"@.len() != "document"@.len());
    }
    assert("figure"@ != "document"@) by {
        assert("figure"@.len() != "document"@.len());
    }
    assert("form"@ != "document"@) by {
        assert("form"@.len() != "document"@.len());
    }
    assert("grid"@ != "document"@) by {
        assert("grid"@.len() != "document"@.len());
    }
    assert("gridcell"@ != "document"@) by {
        assert("gridcell"@[0] != "document"@[0]);
    }
    assert("group"@ != "document"@) by {
        assert("group"@.len() != "document"@.len());
    }
    assert("heading"@ != "document"@) by {
        assert("heading"@.len() != "document"@.len());
    }
    assert("img"@ != "document"@) by {
        assert("img"@.len() != "document"@.len());
    }
    assert("link"@ != "document"@) by {
        assert("link"@.len() != "document"@.len());
    }
    assert("list"@ != "document"@) by {
        assert("list"@.len() != "document"@.len());
    }
    assert("listbox"@ != "document"@) by {
        assert("listbox"@.len() != "document"@.len());
    }
    assert("listitem"@ != "document"@) by {
        assert("listitem"@[0] != "document"@[0]);
    }
    assert("log"@ != "document"@) by {
        assert("log"@.len() != "document"@.len());
    }
    assert("main"@ != "document"@) by {
        assert("main"@.len() != "document"@.len());
    }
    assert("marquee"@ != "document"@) by {
        assert("marquee"@.len() != "document"@.len());
    }
    assert("math"@ != "document"@) by {
        assert("math"@.len() != "document"@.len());
    }
    assert("menu"@ != "document"@) by {
        assert("menu"@.len() != "document"@.len());
    }
    assert("menubar"@ != "document"@) by {
        assert("menubar"@.len() != "document"@.len());
    }
    assert("menuitem"@ != "document"@) by {
        assert("menuitem"@[0] != "document"@[0]);
    }
    assert("menuitemcheckbox"@ != "document"@) by {
        assert("menuitemcheckbox"@.len() != "document"@.len());
    }
    assert("menuitemradio"@ != "document"@) by {
        assert("menuitemradio"@.len() != "document"@.len());
    }
    assert("meter"@ != "document"@) by {
        assert("meter"@.len() != "document"@.len());
    }
    assert("navigation"@ != "document"@) by {
        assert("navigation"@.len() != "document"@.len());
    }
    assert("none"@ != "document"@) by {
        assert("none"@.len() != "document"@.len());
    }
    assert("note"@ != "document"@) by {
        assert("note"@.len() != "document"@.len());
    }
    assert("option"@ != "document"@) by {
        assert("option"@.len() != "document"@.len());
    }
    assert("presentation"@ != "document"@) by {
        assert("presentation"@.len() != "document"@.len());
    }
    assert("progressbar"@ != "document"@) by {
        assert("progressbar"@.len() != "document"@.len());
    }
    assert("radio"@ != "document"@) by {
        assert("radio"@.len() != "document"@.len());
    }
    assert("radiogroup"@ != "document"@) by {
        assert("radiogroup"@.len() != "document"@.len());
    }
    assert("region"@ != "document"@) by {
        assert("region"@.len() != "document"@.len());
    }
    assert("row"@ != "document"@) by {
        assert("row"@.len() != "document"@.len());
    }
    assert("rowgroup"@ != "document"@) by {
        assert("rowgroup"@[0] != "document"@[0]);
    }
    assert("rowheader"@ != "document"@) by {
        assert("rowheader"@.len() != "document"@.len());
    }
    assert("scrollbar"@ != "document"@) by {
        assert("scrollbar"@.len() != "document"@.len());
    }
    assert("search"@ != "document"@) by {
        assert("search"@.len() != "document"@.len());
    }
    assert("searchbox"@ != "document"@) by {
        assert("searchbox"@.len() != "document"@.len());
    }
    assert("separator"@ != "document"@) by {
        assert("separator"@.len() != "document"@.len());
    }
    assert("slider"@ != "document"@) by {
        assert("slider"@.len() != "document"@.len());
    }
    assert("spinbutton"@ != "document"@) by {
        assert("spinbutton"@.len() != "document"@.len());
    }
    assert("status"@ != "document"@) by {
        assert("status"@.len() != "document"@.len());
    }
    assert("switch"@ != "document"@) by {
        assert("switch"@.len() != "document"@.len());
    }
    assert("tab"@ != "document"@) by {
        assert("tab"@.len() != "document"@.len());
    }
    assert("table"@ != "document"@) by {
        assert("table"@.len() != "document"@.len());
    }
    assert("tablist"@ != "document"@) by {
        assert("tablist"@.len() != "document"@.len());
    }
    assert("tabpanel"@ != "document"@) by {
        assert("tabpanel"@[0] != "document"@[0]);
    }
    assert("term"@ != "document"@) by {
        assert("term"@.len() != "document"@.len());
    }
    assert("textbox"@ != "document"@) by {
        assert("textbox"@.len() != "document"@.len());
    }
    assert("timer"@ != "document"@) by {
        assert("timer"@.len() != "document"@.len());
    }
    assert("toolbar"@ != "document"@) by {
        assert("toolbar"@.len() != "document"@.len());
    }
    assert("tooltip"@ != "document"@) by {
        assert("tooltip"@.len() != "document"@.len());
    }
    assert("tree"@ != "document"@) by {
        assert("tree"@.len() != "document"@.len());
    }
    assert("treegrid"@ != "document"@) by {
        assert("treegrid"@[0] != "document"@[0]);
    }
    assert("treeitem"@ != "document"@) by {
        assert("treeitem"@[0] != "document"@[0]);
    }
    assert("command"@ != "document"@) by {
        assert("command"@.len() != "document"@.len());
    }
    assert("composite"@ != "document"@) by {
        assert("composite"@.len() != "document"@.len());
    }
    assert("input"@ != "document"@) by {
        assert("input"@.len() != "document"@.len());
    }
    assert("landmark"@ != "document"@) by {
        assert("landmark"@[0] != "document"@[0]);
    }
    assert("range"@ != "document"@) by {
        assert("range"@.len() != "document"@.len());
    }
    assert("roletype"@ != "document"@) by {
        assert("roletype"@[0] != "document"@[0]);
    }
    assert("section"@ != "document"@) by {
        assert("section"@.len() != "document"@.len());
    }
    assert("sectionhead"@ != "document"@) by {
        assert("sectionhead"@.len() != "document"@.len());
    }
    assert("select"@ != "document"@) by {
        assert("select"@.len() != "document"@.len());
    }
    assert("structure"@ != "document"@) by {
        assert("structure"@.len() != "document"@.len());
    }
    assert("widget"@ != "document"@) by {
        assert("widget"@.len() != "document"@.len());
    }
    assert("window"@ != "document"@) by {
        assert("window"@.len() != "document"@.len());
    }
}

proof fn role_name_unique_feed(b: Role)
    requires
        b.name_spec() == "feed"@,
    ensures
        b == Role::Feed,
{
    reveal_strlit("alert");
    reveal_strlit("alertdialog");
    reveal_strlit("application");
    reveal_strlit("article");
    reveal_strlit("banner");
    reveal_strlit("button");
    reveal_strlit("cell");
    reveal_strlit("checkbox");
    reveal_strlit("columnheader");
    reveal_strlit("combobox");
    reveal_strlit("complementary");
    reveal_strlit("contentinfo");
    reveal_strlit("definition");
    reveal_strlit("dialog");
    reveal_strlit("directory");
    reveal_strlit("document");
    reveal_strlit("feed");
    reveal_strlit("figure");
    reveal_strlit("form");
    reveal_strlit("grid");
    reveal_strlit("gridcell");
    reveal_strlit("group");
    reveal_strlit("heading");
    reveal_strlit("img");
    reveal_strlit("link");
    reveal_strlit("list");
    reveal_strlit("listbox");
    reveal_strlit("listitem");
    reveal_strlit("log");
    reveal_strlit("main");
    reveal_strlit("marquee");
    reveal_strlit("math");
    reveal_strlit("menu");
    reveal_strlit("menubar");
    reveal_strlit("menuitem");
    reveal_strlit("menuitemcheckbox");
    reveal_strlit("menuitemradio");
    reveal_strlit("meter");
    reveal_strlit("navigation");
    reveal_strlit("none");
    reveal_strlit("note");
    reveal_strlit("option");
    reveal_strlit("presentation");
    reveal_strlit("progressbar");
    reveal_strlit("radio");
    reveal_strlit("radiogroup");
    reveal_strlit("region");
    reveal_strlit("row");
    reveal_strlit("rowgroup");
    reveal_strlit("rowheader");
    reveal_strlit("scrollbar");
    reveal_strlit("search");
    reveal_strlit("searchbox");
    reveal_strlit("separator");
    reveal_strlit("slider");
    reveal_strlit("spinbutton");
    reveal_strlit("status");
    reveal_strlit("switch");
    reveal_strlit("tab");
    reveal_strlit("table");
    reveal_strlit("tablist");
    reveal_strlit("tabpanel");
    reveal_strlit("term");
    reveal_strlit("textbox");
    reveal_strlit("timer");
    reveal_strlit("toolbar");
    reveal_strlit("tooltip");
    reveal_strlit("tree");
    reveal_strlit("treegrid");
    reveal_strlit("treeitem");
    reveal_strlit("command");
    reveal_strlit("composite");
    reveal_strlit("input");
    reveal_strlit("landmark");
    reveal_strlit("range");
    reveal_strlit("roletype");
    reveal_strlit("section");
    reveal_strlit("sectionhead");
    reveal_strlit("select");
    reveal_strlit("structure");
    reveal_strlit("widget");
    reveal_strlit("window");
    assert("alert"@ != "feed"@) by {
        assert("alert"@.len() != "feed"@.len());
    }
    assert("alertdialog"@ != "feed"@) by {
        assert("alertdialog"@.len() != "feed"@.len());
    }
    assert("application"@ != "feed"@) by {
        assert("application"@.len() != "feed"@.len());
    }
    assert("article"@ != "feed"@) by {
        assert("article"@.len() != "feed"@.len());
    }
    assert("banner"@ != "feed"@) by {
        assert("banner"@.len() != "feed"@.len());
    }
    assert("button"@ != "feed"@) by {
        assert("button"@.len() != "feed"@.len());
    }
    assert("cell"@ != "feed"@) by {
        assert("cell"@[0] != "feed"@[0]);
    }
    assert("checkbox"@ != "feed"@) by {
        assert("checkbox"@.len() != "feed"@.len());
    }
    assert("columnheader"@ != "feed"@) by {
        assert("columnheader"@.len() != "feed"@.len());
    }
    assert("combobox"@ != "feed"@) by {
        assert("combobox"@.len() != "feed"@.len());
    }
    assert("complementary"@ != "feed"@) by {
        assert("complementary"@.len() != "feed"@.len());
    }
    assert("contentinfo"@ != "feed"@) by {
        assert("contentinfo"@.len() != "feed"@.len());
    }
    assert("definition"@ != "feed"@) by {
        assert("definition"@.len() != "feed"@.len());
    }
    assert("dialog"@ != "feed"@) by {
        assert("dialog"@.len() != "feed"@.len());
    }
    assert("directory"@ != "feed"@) by {
        assert("directory"@.len() != "feed"@.len());
    }
    assert("document"@ != "feed"@) by {
        assert("document"@.len() != "feed"@.len());
    }
    assert("figure"@ != "feed"@) by {
        assert("figure"@.len() != "feed"@.len());
    }
    assert("form"@ != "feed"@) by {
        assert("form"@[1] != "feed"@[1]);
    }
    assert("grid"@ != "feed"@) by {
        assert("grid"@[0] != "feed"@[0]);
    }
    assert("gridcell"@ != "feed"@) by {
        assert("gridcell"@.len() != "feed"@.len());
    }
    assert("group"@ != "feed"@) by {
        assert("group"@.len() != "feed"@.len());
    }
    assert("heading"@ != "feed"@) by {
        assert("heading"@.len() != "feed"@.len());
    }
    assert("img"@ != "feed"@) by {
        assert("img"@.len() != "feed"@.len());
    }
    assert("link"@ != "feed"@) by {
        assert("link"@[0] != "feed"@[0]);
    }
    assert("list"@ != "feed"@) by {
        assert("list"@[0] != "feed"@[0]);
    }
    assert("listbox"@ != "feed"@) by {
        assert("listbox"@.len() != "feed"@.len());
    }
    assert("listitem"@ != "feed"@) by {
        assert("listitem"@.len() != "feed"@.len());
    }
    assert("log"@ != "feed"@) by {
        assert("log"@.len() != "feed"@.len());
    }
    assert("main"@ != "feed"@) by {
        assert("main"@[0] != "feed"@[0]);
    }
    assert("marquee"@ != "feed"@) by {
        assert("marquee"@.len() != "feed"@.len());
    }
    assert("math"@ != "feed"@) by {
        assert("math"@[0] != "feed"@[0]);
    }
    assert("menu"@ != "feed"@) by {
        assert("menu"@[0] != "feed"@[0]);
    }
    assert("menubar"@ != "feed"@) by {
        assert("menubar"@.len() != "feed"@.len());
    }
    assert("menuitem"@ != "feed"@) by {
        assert("menuitem"@.len() != "feed"@.len());
    }
    assert("menuitemcheckbox"@ != "feed"@) by {
        assert("menuitemcheckbox"@.len() != "feed"@.len());
    }
    assert("menuitemradio"@ != "feed"@) by {
        assert("menuitemradio"@.len() != "feed"@.len());
    }
    assert("meter"@ != "feed"@) by {
        assert("meter"@.len() != "feed"@.len());
    }
    assert("navigation"@ != "feed"@) by {
        assert("navigation"@.len() != "feed"@.len());
    }
    assert("none"@ != "feed"@) by {
        assert("none"@[0] != "feed"@[0]);
    }
    assert("note"@ != "feed"@) by {
        assert("note"@[0] != "feed"@[0]);
    }
    assert("option"@ != "feed"@) by {
        assert("option"@.len() != "feed"@.len());
    }
    assert("presentation"@ != "feed"@) by {
        assert("presentation"@.len() != "feed"@.len());
    }
    assert("progressbar"@ != "feed"@) by {
        assert("progressbar"@.len() != "feed"@.len());
    }
    assert("radio"@ != "feed"@) by {
        assert("radio"@.len() != "feed"@.len());
    }
    assert("radiogroup"@ != "feed"@) by {
        assert("radiogroup"@.len() != "feed"@.len());
    }
    assert("region"@ != "feed"@) by {
        assert("region"@.len() != "feed"@.len());
    }
    assert("row"@ != "feed"@) by {
        assert("row"@.len() != "feed"@.len());
    }
    assert("rowgroup"@ != "feed"@) by {
        assert("rowgroup"@.len() != "feed"@.len());
    }
    assert("rowheader"@ != "feed"@) by {
        assert("rowheader"@.len() != "feed"@.len());
    }
    assert("scrollbar"@ != "feed"@) by {
        assert("scrollbar"@.len() != "feed"@.len());
    }
    assert("search"@ != "feed"@) by {
        assert("search"@.len() != "feed"@.len());
    }
    assert("searchbox"@ != "feed"@) by {
        assert("searchbox"@.len() != "feed"@.len());
    }
    assert("separator"@ != "feed"@) by {
        assert("separator"@.len() != "feed"@.len());
    }
    assert("slider"@ != "feed"@) by {
        assert("slider"@.len() != "feed"@.len());
    }
    assert("spinbutton"@ != "feed"@) by {
        assert("spinbutton"@.len() != "feed"@.len());
    }
    assert("status"@ != "feed"@) by {
        assert("status"@.len() != "feed"@.len());
    }
    assert("switch"@ != "feed"@) by {
        assert("switch"@.len() != "feed"@.len());
    }
    assert("tab"@ != "feed"@) by {
        assert("tab"@.len() != "feed"@.len());
    }
    assert("table"@ != "feed"@) by {
        assert("table"@.len() != "feed"@.len());
    }
    assert("tablist"@ != "feed"@) by {
        assert("tablist"@.len() != "feed"@.len());
    }
    assert("tabpanel"@ != "feed"@) by {
        assert("tabpanel"@.len() != "feed"@.len());
    }
    assert("term"@ != "feed"@) by {
        assert("term"@[0] != "feed"@[0]);
    }
    assert("textbox"@ != "feed"@) by {
        assert("textbox"@.len() != "feed"@.len());
    }
    assert("timer"@ != "feed"@) by {
        assert("timer"@.len() != "feed"@.len());
    }
    assert("toolbar"@ != "feed"@) by {
        assert("toolbar"@.len() != "feed"@.len());
    }
    assert("tooltip"@ != "feed"@) by {
        assert("tooltip"@.len() != "feed"@.len());
    }
    assert("tree"@ != "feed"@) by {
        assert("tree"@[0] != "feed"@[0]);
    }
    assert("treegrid"@ != "feed"@) by {
        assert("treegrid"@.len() != "feed"@.len());
    }
    assert("treeitem"@ != "feed"@) by {
        assert("treeitem"@.len() != "feed"@.len());
    }
    assert("command"@ != "feed"@) by {
        assert("command"@.len() != "feed"@.len());
    }
    assert("composite"@ != "feed"@) by {
        assert("composite"@.len() != "feed"@.len());
    }
    assert("input"@ != "feed"@) by {
        assert("input"@.len() != "feed"@.len());
    }
    assert("landmark"@ != "feed"@) by {
        assert("landmark"@.len() != "feed"@.len());
    }
    assert("range"@ != "feed"@) by {
        assert("range"@.len() != "feed"@.len());
    }
    assert("roletype"@ != "feed"@) by {
        assert("roletype"@.len() != "feed"@.len());
    }
    assert("section"@ != "feed"@) by {
        assert("section"@.len() != "feed"@.len());
    }
    assert("sectionhead"@ != "feed"@) by {
        assert("sectionhead"@.len() != "feed"@.len());
    }
    assert("select"@ != "feed"@) by {
        assert("select"@.len() != "feed"@.len());
    }
    assert("structure"@ != "feed"@) by {
        assert("structure"@.len() != "feed"@.len());
    }
    assert("widget"@ != "feed"@) by {
        assert("widget"@.len() != "feed"@.len());
    }
    assert("window"@ != "feed"@) by {
        assert("window"@.len() != "feed"@.len());
    }
}

proof fn role_name_unique_figure(b: Role)
    requires
        b.name_spec() == "figure"@,
    ensures
        b == Role::Figure,
{
    reveal_strlit("alert");
    reveal_strlit("alertdialog");
    reveal_strlit("application");
    reveal_strlit("article");
    reveal_strlit("banner");
    reveal_strlit("button");
    reveal_strlit("cell");
    reveal_strlit("checkbox");
    reveal_strlit("columnheader");
    reveal_strlit("combobox");
    reveal_strlit("complementary");
    reveal_strlit("contentinfo");
    reveal_strlit("definition");
    reveal_strlit("dialog");
    reveal_strlit("directory");
    reveal_strlit("document");
    reveal_strlit("feed");
    reveal_strlit("figure");
    reveal_strlit("form");
    reveal_strlit("grid");
    reveal_strlit("gridcell");
    reveal_strlit("group");
    reveal_strlit("heading");
    reveal_strlit("img");
    reveal_strlit("link");
    reveal_strlit("list");
    reveal_strlit("listbox");
    reveal_strlit("listitem");
    reveal_strlit("log");
    reveal_strlit("main");
    reveal_strlit("marquee");
    reveal_strlit("math");
    reveal_strlit("menu");
    reveal_strlit("menubar");
    reveal_strlit("menuitem");
    reveal_strlit("menuitemcheckbox");
    reveal_strlit("menuitemradio");
    reveal_strlit("meter");
    reveal_strlit("navigation");
    reveal_strlit("none");
    reveal_strlit("note");
    reveal_strlit("option");
    reveal_strlit("presentation");
    reveal_strlit("progressbar");
    reveal_strlit("radio");
    reveal_strlit("radiogroup");
    reveal_strlit("region");
    reveal_strlit("row");
    reveal_strlit("rowgroup");
    reveal_strlit("rowheader");
    reveal_strlit("scrollbar");
    reveal_strlit("search");
    reveal_strlit("searchbox");
    reveal_strlit("separator");
    reveal_strlit("slider");
    reveal_strlit("spinbutton");
    reveal_strlit("status");
    reveal_strlit("switch");
    reveal_strlit("tab");
    reveal_strlit("table");
    reveal_strlit("tablist");
    reveal_strlit("tabpanel");
    reveal_strlit("term");
    reveal_strlit("textbox");
    reveal_strlit("timer");
    reveal_strlit("toolbar");
    reveal_strlit("tooltip");
    reveal_strlit("tree");
    reveal_strlit("treegrid");
    reveal_strlit("treeitem");
    reveal_strlit("command");
    reveal_strlit("composite");
    reveal_strlit("input");
    reveal_strlit("landmark");
    reveal_strlit("range");
    reveal_strlit("roletype");
    reveal_strlit("section");
    reveal_strlit("sectionhead");
    reveal_strlit("select");
    reveal_strlit("structure");
    reveal_strlit("widget");
    reveal_strlit("window");
    assert("alert"@ != "figure"@) by {
        assert("alert"@.len() != "figure"@.len());
    }
    assert("alertdialog"@ != "figure"@) by {
        assert("alertdialog"@.len() != "figure"@.len());
    }
    assert("application"@ != "figure"@) by {
        assert("application"@.len() != "figure"@.len());
    }
    assert("article"@ != "figure"@) by {
        assert("article"@.len() != "figure"@.len());
    }
    assert("banner"@ != "figure"@) by {
        assert("banner"@[0] != "figure"@[0]);
    }
    assert("button"@ != "figure"@) by {
        assert("button"@[0] != "figure"@[0]);
    }
    assert("cell"@ != "figure"@) by {
        assert("cell"@.len() != "figure"@.len());
    }
    assert("checkbox"@ != "figure"@) by {
        assert("checkbox"@.len() != "figure"@.len());
    }
    assert("columnheader"@ != "figure"@) by {
        assert("columnheader"@.len() != "figure"@.len());
    }
    assert("combobox"@ != "figure"@) by {
        assert("combobox"@.len() != "figure"@.len());
    }
    assert("complementary"@ != "figure"@) by {
        assert("complementary"@.len() != "figure"@.len());
    }
    assert("contentinfo"@ != "figure"@) by {
        assert("contentinfo"@.len() != "figure"@.len());
    }
    assert("definition"@ != "figure"@) by {
        assert("definition"@.len() != "figure"@.len());
    }
    assert("dialog"@ != "figure"@) by {
        assert("dialog"@[0] != "figure"@[0]);
    }
    assert("directory"@ != "figure"@) by {
        assert("directory"@.len() != "figure"@.len());
    }
    assert("document"@ != "figure"@) by {
        assert("document"@.len() != "figure"@.len());
    }
    assert("feed"@ != "figure"@) by {
        assert("feed"@.len() != "figure"@.len());
    }
    assert("form"@ != "figure"@) by {
        assert("form"@.len() != "figure"@.len());
    }
    assert("grid"@ != "figure"@) by {
        assert("grid"@.len() != "figure"@.len());
    }
    assert("gridcell"@ != "figure"@) by {
        assert("gridcell"@.len() != "figure"@.len());
    }
    assert("group"@ != "figure"@) by {
        assert("group"@.len() != "figure"@.len());
    }
    assert("heading"@ != "figure"@) by {
        assert("heading"@.len() != "figure"@.len());
    }
    assert("img"@ != "figure"@) by {
        assert("img"@.len() != "figure"@.len());
    }
    assert("link"@ != "figure"@) by {
        assert("link"@.len() != "figure"@.len());
    }
    assert("list"@ != "figure"@) by {
        assert("list"@.len() != "figure"@.len());
    }
    assert("listbox"@ != "figure"@) by {
        assert("listbox"@.len() != "figure"@.len());
    }
    assert("listitem"@ != "figure"@) by {
        assert("listitem"@.len() != "figure"@.len());
    }
    assert("log"@ != "figure"@) by {
        assert("log"@.len() != "figure"@.len());
    }
    assert("main"@ != "figure"@) by {
        assert("main"@.len() != "figure"@.len());
    }
    assert("marquee"@ != "figure"@) by {
        assert("marquee"@.len() != "figure"@.len());
    }
    assert("math"@ != "figure"@) by {
        assert("math"@.len() != "figure"@.len());
    }
    assert("menu"@ != "figure"@) by {
        assert("menu"@.len() != "figure"@.len());
    }
    assert("menubar"@ != "figure"@) by {
        assert("menubar"@.len() != "figure"@.len());
    }
    assert("menuitem"@ != "figure"@) by {
        assert("menuitem"@.len() != "figure"@.len());
    }
    assert("menuitemcheckbox"@ != "figure"@) by {
        assert("menuitemcheckbox"@.len() != "figure"@.len());
    }
    assert("menuitemradio"@ != "figure"@) by {
        assert("menuitemradio"@.len() != "figure"@.len());
    }
    assert("meter"@ != "figure"@) by {
        assert("meter"@.len() != "figure"@.len());
    }
    assert("navigation"@ != "figure"@) by {
        assert("navigation"@.len() != "figure"@.len());
    }
    assert("none"@ != "figure"@) by {
        assert("none"@.len() != "figure"@.len());
    }
    assert("note"@ != "figure"@) by {
        assert("note"@.len() != "figure"@.len());
    }
    assert("option"@ != "figure"@) by {
        assert("option"@[0] != "figure"@[0]);
    }
    assert("presentation"@ != "figure"@) by {
        assert("presentation"@.len() != "figure"@.len());
    }
    assert("progressbar"@ != "figure"@) by {
        assert("progressbar"@.len() != "figure"@.len());
    }
    assert("radio"@ != "figure"@) by {
        assert("radio"@.len() != "figure"@.len());
    }
    assert("radiogroup"@ != "figure"@) by {
        assert("radiogroup"@.len() != "figure"@.len());
    }
    assert("region"@ != "figure"@) by {
        assert("region"@[0] != "figure"@[0]);
    }
    assert("row"@ != "figure"@) by {
        assert("row"@.len() != "figure"@.len());
    }
    assert("rowgroup"@ != "figure"@) by {
        assert("rowgroup"@.len() != "figure"@.len());
    }
    assert("rowheader"@ != "figure"@) by {
        assert("rowheader"@.len() != "figure"@.len());
    }
    assert("scrollbar"@ != "figure"@) by {
        assert("scrollbar"@.len() != "figure"@.len());
    }
    assert("search"@ != "figure"@) by {
        assert("search"@[0] != "figure"@[0]);
    }
    assert("searchbox"@ != "figure"@) by {
        assert("searchbox"@.len() != "figure"@.len());
    }
    assert("separator"@ != "figure"@) by {
        assert("separator"@.len() != "figure"@.len());
    }
    assert("slider"@ != "figure"@) by {
        assert("slider"@[0] != "figure"@[0]);
    }
    assert("spinbutton"@ != "figure"@) by {
        assert("spinbutton"@.len() != "figure"@.len());
    }
    assert("status"@ != "figure"@) by {
        assert("status"@[0] != "figure"@[0]);
    }
    assert("switch"@ != "figure"@) by {
        assert("switch"@[0] != "figure"@[0]);
    }
    assert("tab"@ != "figure"@) by {
        assert("tab"@.len() != "figure"@.len());
    }
    assert("table"@ != "figure"@) by {
        assert("table"@.len() != "figure"@.len());
    }
    assert("tablist"@ != "figure"@) by {
        assert("tablist"@.len() != "figure"@.len());
    }
    assert("tabpanel"@ != "figure"@) by {
        assert("tabpanel"@.len() != "figure"@.len());
    }
    assert("term"@ != "figure"@) by {
        assert("term"@.len() != "figure"@.len());
    }
    assert("textbox"@ != "figure"@) by {
        assert("textbox"@.len() != "figure"@.len());
    }
    assert("timer"@ != "figure"@) by {
        assert("timer"@.len() != "figure"@.len());
    }
    assert("toolbar"@ != "figure"@) by {
        assert("toolbar"@.len() != "figure"@.len());
    }
    assert("tooltip"@ != "figure"@) by {
        assert("tooltip"@.len() != "figure"@.len());
    }
    assert("tree"@ != "figure"@) by {
        assert("tree"@.len() != "figure"@.len());
    }
    assert("treegrid"@ != "figure"@) by {
        assert("treegrid"@.len() != "figure"@.len());
    }
    assert("treeitem"@ != "figure"@) by {
        assert("treeitem"@.len() != "figure"@.len());
    }
    assert("command"@ != "figure"@) by {
        assert("command"@.len() != "figure"@.len());
    }
    assert("composite"@ != "figure"@) by {
        assert("composite"@.len() != "figure"@.len());
    }
    assert("input"@ != "figure"@) by {
        assert("input"@.len() != "figure"@.len());
    }
    assert("landmark"@ != "figure"@) by {
        assert("landmark"@.len() != "figure"@.len());
    }
    assert("range"@ != "figure"@) by {
        assert("range"@.len() != "figure"@.len());
    }
    assert("roletype"@ != "figure"@) by {
        assert("roletype"@.len() != "figure"@.len());
    }
    assert("section"@ != "figure"@) by {
        assert("section"@.len() != "figure"@.len());
    }
    assert("sectionhead"@ != "figure"@) by {
        assert("sectionhead"@.len() != "figure"@.len());
    }
    assert("select"@ != "figure"@) by {
        assert("select"@[0] != "figure"@[0]);
    }
    assert("structure"@ != "figure"@) by {
        assert("structure"@.len() != "figure"@.len());
    }
    assert("widget"@ != "figure"@) by {
        assert("widget"@[0] != "figure"@[0]);
    }
    assert("window"@ != "figure"@) by {
        assert("window"@[0] != "figure"@[0]);
    }
}

proof fn role_name_unique_form(b: Role)
    requires
        b.name_spec() == "form"@,
    ensures
        b == Role::Form,
{
    reveal_strlit("alert");
    reveal_strlit("alertdialog");
    reveal_strlit("application");
    reveal_strlit("article");
    reveal_strlit("banner");
    reveal_strlit("button");
    reveal_strlit("cell");
    reveal_strlit("checkbox");
    reveal_strlit("columnheader");
    reveal_strlit("combobox");
    reveal_strlit("complementary");
    reveal_strlit("contentinfo");
    reveal_strlit("definition");
    reveal_strlit("dialog");
    reveal_strlit("directory");
    reveal_strlit("document");
    reveal_strlit("feed");
    reveal_strlit("figure");
    reveal_strlit("form");
    reveal_strlit("grid");
    reveal_strlit("gridcell");
    reveal_strlit("group");
    reveal_strlit("heading");
    reveal_strlit("img");
    reveal_strlit("link");
    reveal_strlit("list");
    reveal_strlit("listbox");
    reveal_strlit("listitem");
    reveal_strlit("log");
    reveal_strlit("main");
    reveal_strlit("marquee");
    reveal_strlit("math");
    reveal_strlit("menu");
    reveal_strlit("menubar");
    reveal_strlit("menuitem");
    reveal_strlit("menuitemcheckbox");
    reveal_strlit("menuitemradio");
    reveal_strlit("meter");
    reveal_strlit("navigation");
    reveal_strlit("none");
    reveal_strlit("note");
    reveal_strlit("option");
    reveal_strlit("presentation");
    reveal_strlit("progressbar");
    reveal_strlit("radio");
    reveal_strlit("radiogroup");
    reveal_strlit("region");
    reveal_strlit("row");
    reveal_strlit("rowgroup");
    reveal_strlit("rowheader");
    reveal_strlit("scrollbar");
    reveal_strlit("search");
    reveal_strlit("searchbox");
    reveal_strlit("separator");
    reveal_strlit("slider");
    reveal_strlit("spinbutton");
    reveal_strlit("status");
    reveal_strlit("switch");
    reveal_strlit("tab");
    reveal_strlit("table");
    reveal_strlit("tablist");
    reveal_strlit("tabpanel");
    reveal_strlit("term");
    reveal_strlit("textbox");
    reveal_strlit("timer");
    reveal_strlit("toolbar");
    reveal_strlit("tooltip");
    reveal_strlit("tree");
    reveal_strlit("treegrid");
    reveal_strlit("treeitem");
    reveal_strlit("command");
    reveal_strlit("composite");
    reveal_strlit("input");
    reveal_strlit("landmark");
    reveal_strlit("range");
    reveal_strlit("roletype");
    reveal_strlit("section");
    reveal_strlit("sectionhead");
    reveal_strlit("select");
    reveal_strlit("structure");
    reveal_strlit("widget");
    reveal_strlit("window");
    assert("alert"@ != "form"@) by {
        assert("alert"@.len() != "form"@.len());
    }
    assert("alertdialog"@ != "form"@) by {
        assert("alertdialog"@.len() != "form"@.len());
    }
    assert("application"@ != "form"@) by {
        assert("application"@.len() != "form"@.len());
    }
    assert("article"@ != "form"@) by {
        assert("article"@.len() != "form"@.len());
    }
    assert("banner"@ != "form"@) by {
        assert("banner"@.len() != "form"@.len());
    }
    assert("button"@ != "form"@) by {
        assert("button"@.len() != "form"@.len());
    }
    assert("cell"@ != "form"@) by {
        assert("cell"@[0] != "form"@[0]);
    }
    assert("checkbox"@ != "form"@) by {
        assert("checkbox"@.len() != "form"@.len());
    }
    assert("columnheader"@ != "form"@) by {
        assert("columnheader"@.len() != "form"@.len());
    }
    assert("combobox"@ != "form"@) by {
        assert("combobox"@.len() != "form"@.len());
    }
    assert("complementary"@ != "form"@) by {
        assert("complementary"@.len() != "form"@.len());
    }
    assert("contentinfo"@ != "form"@) by {
        assert("contentinfo"@.len() != "form"@.len());
    }
    assert("definition"@ != "form"@) by {
        assert("definition"@.len() != "form"@.len());
    }
    assert("dialog"@ != "form"@) by {
        assert("dialog"@.len() != "form"@.len());
    }
    assert("directory"@ != "form"@) by {
        assert("directory"@.len() != "form"@.len());
    }
    assert("document"@ != "form"@) by {
        assert("document"@.len() != "form"@.len());
    }
    assert("feed"@ != "form"@) by {
        assert("feed"@[1] != "form"@[1]);
    }
    assert("figure"@ != "form"@) by {
        assert("figure"@.len() != "form"@.len());
    }
    assert("grid"@ != "form"@) by {
        assert("grid"@[0] != "form"@[0]);
    }
    assert("gridcell"@ != "form"@) by {
        assert("gridcell"@.len() != "form"@.len());
    }
    assert("group"@ != "form"@) by {
        assert("group"@.len() != "form"@.len());
    }
    assert("heading"@ != "form"@) by {
        assert("heading"@.len() != "form"@.len());
    }
    assert("img"@ != "form"@) by {
        assert("img"@.len() != "form"@.len());
    }
    assert("link"@ != "form"@) by {
        assert("link"@[0] != "form"@[0]);
    }
    assert("list"@ != "form"@) by {
        assert("list"@[0] != "form"@[0]);
    }
    assert("listbox"@ != "form"@) by {
        assert("listbox"@.len() != "form"@.len());
    }
    assert("listitem"@ != "form"@) by {
        assert("listitem"@.len() != "form"@.len());
    }
    assert("log"@ != "form"@) by {
        assert("log"@.len() != "form"@.len());
    }
    assert("main"@ != "form"@) by {
        assert("main"@[0] != "form"@[0]);
    }
    assert("marquee"@ != "form"@) by {
        assert("marquee"@.len() != "form"@.len());
    }
    assert("math"@ != "form"@) by {
        assert("math"@[0] != "form"@[0]);
    }
    assert("menu"@ != "form"@) by {
        assert("menu"@[0] != "form"@[0]);
    }
    assert("menubar"@ != "form"@) by {
        assert("menubar"@.len() != "form"@.len());
    }
    assert("menuitem"@ != "form"@) by {
        assert("menuitem"@.len() != "form"@.len());
    }
    assert("menuitemcheckbox"@ != "form"@) by {
        assert("menuitemcheckbox"@.len() != "form"@.len());
    }
    assert("menuitemradio"@ != "form"@) by {
        assert("menuitemradio"@.len() != "form"@.len());
    }
    assert("meter"@ != "form"@) by {
        assert("meter"@.len() != "form"@.len());
    }
    assert("navigation"@ != "form"@) by {
        assert("navigation"@.len() != "form"@.len());
    }
    assert("none"@ != "form"@) by {
        assert("none"@[0] != "form"@[0]);
    }
    assert("note"@ != "form"@) by {
        assert("note"@[0] != "form"@[0]);
    }
    assert("option"@ != "form"@) by {
        assert("option"@.len() != "form"@.len());
    }
    assert("presentation"@ != "form"@) by {
        assert("presentation"@.len() != "form"@.len());
    }
    assert("progressbar"@ != "form"@) by {
        assert("progressbar"@.len() != "form"@.len());
    }
    assert("radio"@ != "form"@) by {
        assert("radio"@.len() != "form"@.len());
    }
    assert("radiogroup"@ != "form"@) by {
        assert("radiogroup"@.len() != "form"@.len());
    }
    assert("region"@ != "form"@) by {
        assert("region"@.len() != "form"@.len());
    }
    assert("row"@ != "form"@) by {
        assert("row"@.len() != "form"@.len());
    }
    assert("rowgroup"@ != "form"@) by {
        assert("rowgroup"@.len() != "form"@.len());
    }
    assert("rowheader"@ != "form"@) by {
        assert("rowheader"@.len() != "form"@.len());
    }
    assert("scrollbar"@ != "form"@) by {
        assert("scrollbar"@.len() != "form"@.len());
    }
    assert("search"@ != "form"@) by {
        assert("search"@.len() != "form"@.len());
    }
    assert("searchbox"@ != "form"@) by {
        assert("searchbox"@.len() != "form"@.len());
    }
    assert("separator"@ != "form"@) by {
        assert("separator"@.len() != "form"@.len());
    }
    assert("slider"@ != "form"@) by {
        assert("slider"@.len() != "form"@.len());
    }
    assert("spinbutton"@ != "form"@) by {
        assert("spinbutton"@.len() != "form"@.len());
    }
    assert("status"@ != "form"@) by {
        assert("status"@.len() != "form"@.len());
    }
    assert("switch"@ != "form"@) by {
        assert("switch"@.len() != "form"@.len());
    }
    assert("tab"@ != "form"@) by {
        assert("tab"@.len() != "form"@.len());
    }
    assert("table"@ != "form"@) by {
        assert("table"@.len() != "form"@.len());
    }
    assert("tablist"@ != "form"@) by {
        assert("tablist"@.len() != "form"@.len());
    }
    assert("tabpanel"@ != "form"@) by {
        assert("tabpanel"@.len() != "form"@.len());
    }
    assert("term"@ != "form"@) by {
        assert("term"@[0] != "form"@[0]);
    }
    assert("textbox"@ != "form"@) by {
        assert("textbox"@.len() != "form"@.len());
    }
    assert("timer"@ != "form"@) by {
        assert("timer"@.len() != "form"@.len());
    }
    assert("toolbar"@ != "form"@) by {
        assert("toolbar"@.len() != "form"@.len());
    }
    assert("tooltip"@ != "form"@) by {
        assert("tooltip"@.len() != "form"@.len());
    }
    assert("tree"@ != "form"@) by {
        assert("tree"@[0] != "form"@[0]);
    }
    assert("treegrid"@ != "form"@) by {
        assert("treegrid"@.len() != "form"@.len());
    }
    assert("treeitem"@ != "form"@) by {
        assert("treeitem"@.len() != "form"@.len());
    }
    assert("command"@ != "form"@) by {
        assert("command"@.len() != "form"@.len());
    }
    assert("composite"@ != "form"@) by {
        assert("composite"@.len() != "form"@.len());
    }
    assert("input"@ != "form"@) by {
        assert("input"@.len() != "form"@.len());
    }
    assert("landmark"@ != "form"@) by {
        assert("landmark"@.len() != "form"@.len());
    }
    assert("range"@ != "form"@) by {
        assert("range"@.len() != "form"@.len());
    }
    assert("roletype"@ != "form"@) by {
        assert("roletype"@.len() != "form"@.len());
    }
    assert("section"@ != "form"@) by {
        assert("section"@.len() != "form"@.len());
    }
    assert("sectionhead"@ != "form"@) by {
        assert("sectionhead"@.len() != "form"@.len());
    }
    assert("select"@ != "form"@) by {
        assert("select"@.len() != "form"@.len());
    }
    assert("structure"@ != "form"@) by {
        assert("structure"@.len() != "form"@.len());
    }
    assert("widget"@ != "form"@) by {
        assert("widget"@.len() != "form"@.len());
    }
    assert("window"@ != "form"@) by {
        assert("window"@.len() != "form"@.len());
    }
}

proof fn role_name_unique_grid(b: Role)
    requires
        b.name_spec() == "grid"@,
    ensures
        b == Role::Grid,
{
    reveal_strlit("alert");
    reveal_strlit("alertdialog");
    reveal_strlit("application");
    reveal_strlit("article");
    reveal_strlit("banner");
    reveal_strlit("button");
    reveal_strlit("cell");
    reveal_strlit("checkbox");
    reveal_strlit("columnheader");
    reveal_strlit("combobox");
    reveal_strlit("complementary");
    reveal_strlit("contentinfo");
    reveal_strlit("definition");
    reveal_strlit("dialog");
    reveal_strlit("directory");
    reveal_strlit("document");
    reveal_strlit("feed");
    reveal_strlit("figure");
    reveal_strlit("form");
    reveal_strlit("grid");
    reveal_strlit("gridcell");
    reveal_strlit("group");
    reveal_strlit("heading");
    reveal_strlit("img");
    reveal_strlit("link");
    reveal_strlit("list");
    reveal_strlit("listbox");
    reveal_strlit("listitem");
    reveal_strlit("log");
    reveal_strlit("main");
    reveal_strlit("marquee");
    reveal_strlit("math");
    reveal_strlit("menu");
    reveal_strlit("menubar");
    reveal_strlit("menuitem");
    reveal_strlit("menuitemcheckbox");
    reveal_strlit("menuitemradio");
    reveal_strlit("meter");
    reveal_strlit("navigation");
    reveal_strlit("none");
    reveal_strlit("note");
    reveal_strlit("option");
    reveal_strlit("presentation");
    reveal_strlit("progressbar");
    reveal_strlit("radio");
    reveal_strlit("radiogroup");
    reveal_strlit("region");
    reveal_strlit("row");
    reveal_strlit("rowgroup");
    reveal_strlit("rowheader");
    reveal_strlit("scrollbar");
    reveal_strlit("search");
    reveal_strlit("searchbox");
    reveal_strlit("separator");
    reveal_strlit("slider");
    reveal_strlit("spinbutton");
    reveal_strlit("status");
    reveal_strlit("switch");
    reveal_strlit("tab");
    reveal_strlit("table");
    reveal_strlit("tablist");
    reveal_strlit("tabpanel");
    reveal_strlit("term");
    reveal_strlit("textbox");
    reveal_strlit("timer");
    reveal_strlit("toolbar");
    reveal_strlit("tooltip");
    reveal_strlit("tree");
    reveal_strlit("treegrid");
    reveal_strlit("treeitem");
    reveal_strlit("command");
    reveal_strlit("composite");
    reveal_strlit("input");
    reveal_strlit("landmark");
    reveal_strlit("range");
    reveal_strlit("roletype");
    reveal_strlit("section");
    reveal_strlit("sectionhead");
    reveal_strlit("select");
    reveal_strlit("structure");
    reveal_strlit("widget");
    reveal_strlit("window");
    assert("alert"@ != "grid"@) by {
        assert("alert"@.len() != "grid"@.len());
    }
    assert("alertdialog"@ != "grid"@) by {
        assert("alertdialog"@.len() != "grid"@.len());
    }
    assert("application"@ != "grid"@) by {
        assert("application"@.len() != "grid"@.len());
    }
    assert("article"@ != "grid"@) by {
        assert("article"@.len() != "grid"@.len());
    }
    assert("banner"@ != "grid"@) by {
        assert("banner"@.len() != "grid"@.len());
    }
    assert("button"@ != "grid"@) by {
        assert("button"@.len() != "grid"@.len());
    }
    assert("cell"@ != "grid"@) by {
        assert("cell"@[0] != "grid"@[0]);
    }
    assert("checkbox"@ != "grid"@) by {
        assert("checkbox"@.len() != "grid"@.len());
    }
    assert("columnheader"@ != "grid"@) by {
        assert("columnheader"@.len() != "grid"@.len());
    }
    assert("combobox"@ != "grid"@) by {
        assert("combobox"@.len() != "grid"@.len());
    }
    assert("complementary"@ != "grid"@) by {
        assert("complementary"@.len() != "grid"@.len());
    }
    assert("contentinfo"@ != "grid"@) by {
        assert("contentinfo"@.len() != "grid"@.len());
    }
    assert("definition"@ != "grid"@) by {
        assert("definition"@.len() != "grid"@.len());
    }
    assert("dialog"@ != "grid"@) by {
        assert("dialog"@.len() != "grid"@.len());
    }
    assert("directory"@ != "grid"@) by {
        assert("directory"@.len() != "grid"@.len());
    }
    assert("document"@ != "grid"@) by {
        assert("document"@.len() != "grid"@.len());
    }
    assert("feed"@ != "grid"@) by {
        assert("feed"@[0] != "grid"@[0]);
    }
    assert("figure"@ != "grid"@) by {
        assert("figure"@.len() != "grid"@.len());
    }
    assert("form"@ != "grid"@) by {
        assert("form"@[0] != "grid"@[0]);
    }
    assert("gridcell"@ != "grid"@) by {
        assert("gridcell"@.len() != "grid"@.len());
    }
    assert("group"@ != "grid"@) by {
        assert("group"@.len() != "grid"@.len());
    }
    assert("heading"@ != "grid"@) by {
        assert("heading"@.len() != "grid"@.len());
    }
    assert("img"@ != "grid"@) by {
        assert("img"@.len() != "grid"@.len());
    }
    assert("link"@ != "grid"@) by {
        assert("link"@[0] != "grid"@[0]);
    }
    assert("list"@ != "grid"@) by {
        assert("list"@[0] != "grid"@[0]);
    }
    assert("listbox"@ != "grid"@) by {
        assert("listbox"@.len() != "grid"@.len());
    }
    assert("listitem"@ != "grid"@) by {
        assert("listitem"@.len() != "grid"@.len());
    }
    assert("log"@ != "grid"@) by {
        assert("log"@.len() != "grid"@.len());
    }
    assert("main"@ != "grid"@) by {
        assert("main"@[0] != "grid"@[0]);
    }
    assert("marquee"@ != "grid"@) by {
        assert("marquee"@.len() != "grid"@.len());
    }
    assert("math"@ != "grid"@) by {
        assert("math"@[0] != "grid"@[0]);
    }
    assert("menu"@ != "grid"@) by {
        assert("menu"@[0] != "grid"@[0]);
    }
    assert("menubar"@ != "grid"@) by {
        assert("menubar"@.len() != "grid"@.len());
    }
    assert("menuitem"@ != "grid"@) by {
        assert("menuitem"@.len() != "grid"@.len());
    }
    assert("menuitemcheckbox"@ != "grid"@) by {
        assert("menuitemcheckbox"@.len() != "grid"@.len());
    }
    assert("menuitemradio"@ != "grid"@) by {
        assert("menuitemradio"@.len() != "grid"@.len());
    }
    assert("meter"@ != "grid"@) by {
        assert("meter"@.len() != "grid"@.len());
    }
    assert("navigation"@ != "grid"@) by {
        assert("navigation"@.len() != "grid"@.len());
    }
    assert("none"@ != "grid"@) by {
        assert("none"@[0] != "grid"@[0]);
    }
    assert("note"@ != "grid"@) by {
        assert("note"@[0] != "grid"@[0]);
    }
    assert("option"@ != "grid"@) by {
        assert("option"@.len() != "grid"@.len());
    }
    assert("presentation"@ != "grid"@) by {
        assert("presentation"@.len() != "grid"@.len());
    }
    assert("progressbar"@ != "grid"@) by {
        assert("progressbar"@.len() != "grid"@.len());
    }
    assert("radio"@ != "grid"@) by {
        assert("radio"@.len() != "grid"@.len());
    }
    assert("radiogroup"@ != "grid"@) by {
        assert("radiogroup"@.len() != "grid"@.len());
    }
    assert("region"@ != "grid"@) by {
        assert("region"@.len() != "grid"@.len());
    }
    assert("row"@ != "grid"@) by {
        assert("row"@.len() != "grid"@.len());
    }
    assert("rowgroup"@ != "grid"@) by {
        assert("rowgroup"@.len() != "grid"@.len());
    }
    assert("rowheader"@ != "grid"@) by {
        assert("rowheader"@.len() != "grid"@.len());
    }
    assert("scrollbar"@ != "grid"@) by {
        assert("scrollbar"@.len() != "grid"@.len());
    }
    assert("search"@ != "grid"@) by {
        assert("search"@.len() != "grid"@.len());
    }
    assert("searchbox"@ != "grid"@) by {
        assert("searchbox"@.len() != "grid"@.len());
    }
    assert("separator"@ != "grid"@) by {
        assert("separator"@.len() != "grid"@.len());
    }
    assert("slider"@ != "grid"@) by {
        assert("slider"@.len() != "grid"@.len());
    }
    assert("spinbutton"@ != "grid"@) by {
        assert("spinbutton"@.len() != "grid"@.len());
    }
    assert("status"@ != "grid"@) by {
        assert("status"@.len() != "grid"@.len());
    }
    assert("switch"@ != "grid"@) by {
        assert("switch"@.len() != "grid"@.len());
    }
    assert("tab"@ != "grid"@) by {
        assert("tab"@.len() != "grid"@.len());
    }
    assert("table"@ != "grid"@) by {
        assert("table"@.len() != "grid"@.len());
    }
    assert("tablist"@ != "grid"@) by {
        assert("tablist"@.len() != "grid"@.len());
    }
    assert("tabpanel"@ != "grid"@) by {
        assert("tabpanel"@.len() != "grid"@.len());
    }
    assert("term"@ != "grid"@) by {
        assert("term"@[0] != "grid"@[0]);
    }
    assert("textbox"@ != "grid"@) by {
        assert("textbox"@.len() != "grid"@.len());
    }
    assert("timer"@ != "grid"@) by {
        assert("timer"@.len() != "grid"@.len());
    }
    assert("toolbar"@ != "grid"@) by {
        assert("toolbar"@.len() != "grid"@.len());
    }
    assert("tooltip"@ != "grid"@) by {
        assert("tooltip"@.len() != "grid"@.len());
    }
    assert("tree"@ != "grid"@) by {
        assert("tree"@[0] != "grid"@[0]);
    }
    assert("treegrid"@ != "grid"@) by {
        assert("treegrid"@.len() != "grid"@.len());
    }
    assert("treeitem"@ != "grid"@) by {
        assert("treeitem"@.len() != "grid"@.len());
    }
    assert("command"@ != "grid"@) by {
        assert("command"@.len() != "grid"@.len());
    }
    assert("composite"@ != "grid"@) by {
        assert("composite"@.len() != "grid"@.len());
    }
    assert("input"@ != "grid"@) by {
        assert("input"@.len() != "grid"@.len());
    }
    assert("landmark"@ != "grid"@) by {
        assert("landmark"@.len() != "grid"@.len());
    }
    assert("range"@ != "grid"@) by {
        assert("range"@.len() != "grid"@.len());
    }
    assert("roletype"@ != "grid"@) by {
        assert("roletype"@.len() != "grid"@.len());
    }
    assert("section"@ != "grid"@) by {
        assert("section"@.len() != "grid"@.len());
    }
    assert("sectionhead"@ != "grid"@) by {
        assert("sectionhead"@.len() != "grid"@.len());
    }
    assert("select"@ != "grid"@) by {
        assert("select"@.len() != "grid"@.len());
    }
    assert("structure"@ != "grid"@) by {
        assert("structure"@.len() != "grid"@.len());
    }
    assert("widget"@ != "grid"@) by {
        assert("widget"@.len() != "grid"@.len());
    }
    assert("window"@ != "grid"@) by {
        assert("window"@.len() != "grid"@.len());
    }
}

proof fn role_name_unique_gridcell(b: Role)
    requires
        b.name_spec() == "gridcell"@,
    ensures
        b == Role::GridCell,
{
    reveal_strlit("alert");
    reveal_strlit("alertdialog");
    reveal_strlit("application");
    reveal_strlit("article");
    reveal_strlit("banner");
    reveal_strlit("button");
    reveal_strlit("cell");
    reveal_strlit("checkbox");
    reveal_strlit("columnheader");
    reveal_strlit("combobox");
    reveal_strlit("complementary");
    reveal_strlit("contentinfo");
    reveal_strlit("definition");
    reveal_strlit("dialog");
    reveal_strlit("directory");
    reveal_strlit("document");
    reveal_strlit("feed");
    reveal_strlit("figure");
    reveal_strlit("form");
    reveal_strlit("grid");
    reveal_strlit("gridcell");
    reveal_strlit("group");
    reveal_strlit("heading");
    reveal_strlit("img");
    reveal_strlit("link");
    reveal_strlit("list");
    reveal_strlit("listbox");
    reveal_strlit("listitem");
    reveal_strlit("log");
    reveal_strlit("main");
    reveal_strlit("marquee");
    reveal_strlit("math");
    reveal_strlit("menu");
    reveal_strlit("menubar");
    reveal_strlit("menuitem");
    reveal_strlit("menuitemcheckbox");
    reveal_strlit("menuitemradio");
    reveal_strlit("meter");
    reveal_strlit("navigation");
    reveal_strlit("none");
    reveal_strlit("note");
    reveal_strlit("option");
    reveal_strlit("presentation");
    reveal_strlit("progressbar");
    reveal_strlit("radio");
    reveal_strlit("radiogroup");
    reveal_strlit("region");
    reveal_strlit("row");
    reveal_strlit("rowgroup");
    reveal_strlit("rowheader");
    reveal_strlit("scrollbar");
    reveal_strlit("search");
    reveal_strlit("searchbox");
    reveal_strlit("separator");
    reveal_strlit("slider");
    reveal_strlit("spinbutton");
    reveal_strlit("status");
    reveal_strlit("switch");
    reveal_strlit("tab");
    reveal_strlit("table");
    reveal_strlit("tablist");
    reveal_strlit("tabpanel");
    reveal_strlit("term");
    reveal_strlit("textbox");
    reveal_strlit("timer");
    reveal_strlit("toolbar");
    reveal_strlit("tooltip");
    reveal_strlit("tree");
    reveal_strlit("treegrid");
    reveal_strlit("treeitem");
    reveal_strlit("command");
    reveal_strlit("composite");
    reveal_strlit("input");
    reveal_strlit("landmark");
    reveal_strlit("range");
    reveal_strlit("roletype");
    reveal_strlit("section");
    reveal_strlit("sectionhead");
    reveal_strlit("select");
    reveal_strlit("structure");
    reveal_strlit("widget");
    reveal_strlit("window");
    assert("alert"@ != "gridcell"@) by {
        assert("alert"@.len() != "gridcell"@.len());
    }
    assert("alertdialog"@ != "gridcell"@) by {
        assert("alertdialog"@.len() != "gridcell"@.len());
    }
    assert("application"@ != "gridcell"@) by {
        assert("application"@.len() != "gridcell"@.len());
    }
    assert("article"@ != "gridcell"@) by {
        assert("article"@.len() != "gridcell"@.len());
    }
    assert("banner"@ != "gridcell"@) by {
        assert("banner"@.len() != "gridcell"@.len());
    }
    assert("button"@ != "gridcell"@) by {
        assert("button"@.len() != "gridcell"@.len());
    }
    assert("cell"@ != "gridcell"@) by {
        assert("cell"@.len() != "gridcell"@.len());
    }
    assert("checkbox"@ != "gridcell"@) by {
        assert("checkbox"@[0] != "gridcell"@[0]);
    }
    assert("columnheader"@ != "gridcell"@) by {
        assert("columnheader"@.len() != "gridcell"@.len());
    }
    assert("combobox"@ != "gridcell"@) by {
        assert("combobox"@[0] != "gridcell"@[0]);
    }
    assert("complementary"@ != "gridcell"@) by {
        assert("complementary"@.len() != "gridcell"@.len());
    }
    assert("contentinfo"@ != "gridcell"@) by {
        assert("contentinfo"@.len() != "gridcell"@.len());
    }
    assert("definition"@ != "gridcell"@) by {
        assert("definition"@.len() != "gridcell"@.len());
    }
    assert("dialog"@ != "gridcell"@) by {
        assert("dialog"@.len() != "gridcell"@.len());
    }
    assert("directory"@ != "gridcell"@) by {
        assert("directory"@.len() != "gridcell"@.len());
    }
    assert("document"@ != "gridcell"@) by {
        assert("document"@[0] != "gridcell"@[0]);
    }
    assert("feed"@ != "gridcell"@) by {
        assert("feed"@.len() != "gridcell"@.len());
    }
    assert("figure"@ != "gridcell"@) by {
        assert("figure"@.len() != "gridcell"@.len());
    }
    assert("form"@ != "gridcell"@) by {
        assert("form"@.len() != "gridcell"@.len());
    }
    assert("grid"@ != "gridcell"@) by {
        assert("grid"@.len() != "gridcell"@.len());
    }
    assert("group"@ != "gridcell"@) by {
        assert("group"@.len() != "gridcell"@.len());
    }
    assert("heading"@ != "gridcell"@) by {
        assert("heading"@.len() != "gridcell"@.len());
    }
    assert("img"@ != "gridcell"@) by {
        assert("img"@.len() != "gridcell"@.len());
    }
    assert("link"@ != "gridcell"@) by {
        assert("link"@.len() != "gridcell"@.len());
    }
    assert("list"@ != "gridcell"@) by {
        assert("list"@.len() != "gridcell"@.len());
    }
    assert("listbox"@ != "gridcell"@) by {
        assert("listbox"@.len() != "gridcell"@.len());
    }
    assert("listitem"@ != "gridcell"@) by {
        assert("listitem"@[0] != "gridcell"@[0]);
    }
    assert("log"@ != "gridcell"@) by {
        assert("log"@.len() != "gridcell"@.len());
    }
    assert("main"@ != "gridcell"@) by {
        assert("main"@.len() != "gridcell"@.len());
    }
    assert("marquee"@ != "gridcell"@) by {
        assert("marquee"@.len() != "gridcell"@.len());
    }
    assert("math"@ != "gridcell"@) by {
        assert("math"@.len() != "gridcell"@.len());
    }
    assert("menu"@ != "gridcell"@) by {
        assert("menu"@.len() != "gridcell"@.len());
    }
    assert("menubar"@ != "gridcell"@) by {
        assert("menubar"@.len() != "gridcell"@.len());
    }
    assert("menuitem"@ != "gridcell"@) by {
        assert("menuitem"@[0] != "gridcell"@[0]);
    }
    assert("menuitemcheckbox"@ != "gridcell"@) by {
        assert("menuitemcheckbox"@.len() != "gridcell"@.len());
    }
    assert("menuitemradio"@ != "gridcell"@) by {
        assert("menuitemradio"@.len() != "gridcell"@.len());
    }
    assert("meter"@ != "gridcell"@) by {
        assert("meter"@.len() != "gridcell"@.len());
    }
    assert("navigation"@ != "gridcell"@) by {
        assert("navigation"@.len() != "gridcell"@.len());
    }
    assert("none"@ != "gridcell"@) by {
        assert("none"@.len() != "gridcell"@.len());
    }
    assert("note"@ != "gridcell"@) by {
        assert("note"@.len() != "gridcell"@.len());
    }
    assert("option"@ != "gridcell"@) by {
        assert("option"@.len() != "gridcell"@.len());
    }
    assert("presentation"@ != "gridcell"@) by {
        assert("presentation"@.len() != "gridcell"@.len());
    }
    assert("progressbar"@ != "gridcell"@) by {
        assert("progressbar"@.len() != "gridcell"@.len());
    }
    assert("radio"@ != "gridcell"@) by {
        assert("radio"@.len() != "gridcell"@.len());
    }
    assert("radiogroup"@ != "gridcell"@) by {
        assert("radiogroup"@.len() != "gridcell"@.len());
    }
    assert("region"@ != "gridcell"@) by {
        assert("region"@.len() != "gridcell"@.len());
    }
    assert("row"@ != "gridcell"@) by {
        assert("row"@.len() != "gridcell"@.len());
    }
    assert("rowgroup"@ != "gridcell"@) by {
        assert("rowgroup"@[0] != "gridcell"@[0]);
    }
    assert("rowheader"@ != "gridcell"@) by {
        assert("rowheader"@.len() != "gridcell"@.len());
    }
    assert("scrollbar"@ != "gridcell"@) by {
        assert("scrollbar"@.len() != "gridcell"@.len());
    }
    assert("search"@ != "gridcell"@) by {
        assert("search"@.len() != "gridcell"@.len());
    }
    assert("searchbox"@ != "gridcell"@) by {
        assert("searchbox"@.len() != "gridcell"@.len());
    }
    assert("separator"@ != "gridcell"@) by {
        assert("separator"@.len() != "gridcell"@.len());
    }
    assert("slider"@ != "gridcell"@) by {
        assert("slider"@.len() != "gridcell"@.len());
    }
    assert("spinbutton"@ != "gridcell"@) by {
        assert("spinbutton"@.len() != "gridcell"@.len());
    }
    assert("status"@ != "gridcell"@) by {
        assert("status"@.len() != "gridcell"@.len());
    }
    assert("switch"@ != "gridcell"@) by {
        assert("switch"@.len() != "gridcell"@.len());
    }
    assert("tab"@ != "gridcell"@) by {
        assert("tab"@.len() != "gridcell"@.len());
    }
    assert("table"@ != "gridcell"@) by {
        assert("table"@.len() != "gridcell"@.len());
    }
    assert("tablist"@ != "gridcell"@) by {
        assert("tablist"@.len() != "gridcell"@.len());
    }
    assert("tabpanel"@ != "gridcell"@) by {
        assert("tabpanel"@[0] != "gridcell"@[0]);
    }
    assert("term"@ != "gridcell"@) by {
        assert("term"@.len() != "gridcell"@.len());
    }
    assert("textbox"@ != "gridcell"@) by {
        assert("textbox"@.len() != "gridcell"@.len());
    }
    assert("timer"@ != "gridcell"@) by {
        assert("timer"@.len() != "gridcell"@.len());
    }
    assert("toolbar"@ != "gridcell"@) by {
        assert("toolbar"@.len() != "gridcell"@.len());
    }
    assert("tooltip"@ != "gridcell"@) by {
        assert("tooltip"@.len() != "gridcell"@.len());
    }
    assert("tree"@ != "gridcell"@) by {
        assert("tree"@.len() != "gridcell"@.len());
    }
    assert("treegrid"@ != "gridcell"@) by {
        assert("treegrid"@[0] != "gridcell"@[0]);
    }
    assert("treeitem"@ != "gridcell"@) by {
        assert("treeitem"@[0] != "gridcell"@[0]);
    }
    assert("command"@ != "gridcell"@) by {
        assert("command"@.len() != "gridcell"@.len());
    }
    assert("composite"@ != "gridcell"@) by {
        assert("composite"@.len() != "gridcell"@.len());
    }
    assert("input"@ != "gridcell"@) by {
        assert("input"@.len() != "gridcell"@.len());
    }
    assert("landmark"@ != "gridcell"@) by {
        assert("landmark"@[0] != "gridcell"@[0]);
    }
    assert("range"@ != "gridcell"@) by {
        assert("range"@.len() != "gridcell"@.len());
    }
    assert("roletype"@ != "gridcell"@) by {
        assert("roletype"@[0] != "gridcell"@[0]);
    }
    assert("section"@ != "gridcell"@) by {
        assert("section"@.len() != "gridcell"@.len());
    }
    assert("sectionhead"@ != "gridcell"@) by {
        assert("sectionhead"@.len() != "gridcell"@.len());
    }
    assert("select"@ != "gridcell"@) by {
        assert("select"@.len() != "gridcell"@.len());
    }
    assert("structure"@ != "gridcell"@) by {
        assert("structure"@.len() != "gridcell"@.len());
    }
    assert("widget"@ != "gridcell"@) by {
        assert("widget"@.len() != "gridcell"@.len());
    }
    assert("window"@ != "gridcell"@) by {
        assert("window"@.len() != "gridcell"@.len());
    }
}

proof fn role_name_unique_group(b: Role)
    requires
        b.name_spec() == "group"@,
    ensures
        b == Role::Group,
{
    reveal_strlit("alert");
    reveal_strlit("alertdialog");
    reveal_strlit("application");
    reveal_strlit("article");
    reveal_strlit("banner");
    reveal_strlit("button");
    reveal_strlit("cell");
    reveal_strlit("checkbox");
    reveal_strlit("columnheader");
    reveal_strlit("combobox");
    reveal_strlit("complementary");
    reveal_strlit("contentinfo");
    reveal_strlit("definition");
    reveal_strlit("dialog");
    reveal_strlit("directory");
    reveal_strlit("document");
    reveal_strlit("feed");
    reveal_strlit("figure");
    reveal_strlit("form");
    reveal_strlit("grid");
    reveal_strlit("gridcell");
    reveal_strlit("group");
    reveal_strlit("heading");
    reveal_strlit("img");
    reveal_strlit("link");
    reveal_strlit("list");
    reveal_strlit("listbox");
    reveal_strlit("listitem");
    reveal_strlit("log");
    reveal_strlit("main");
    reveal_strlit("marquee");
    reveal_strlit("math");
    reveal_strlit("menu");
    reveal_strlit("menubar");
    reveal_strlit("menuitem");
    reveal_strlit("menuitemcheckbox");
    reveal_strlit("menuitemradio");
    reveal_strlit("meter");
    reveal_strlit("navigation");
    reveal_strlit("none");
    reveal_strlit("note");
    reveal_strlit("option");
    reveal_strlit("presentation");
    reveal_strlit("progressbar");
    reveal_strlit("radio");
    reveal_strlit("radiogroup");
    reveal_strlit("region");
    reveal_strlit("row");
    reveal_strlit("rowgroup");
    reveal_strlit("rowheader");
    reveal_strlit("scrollbar");
    reveal_strlit("search");
    reveal_strlit("searchbox");
    reveal_strlit("separator");
    reveal_strlit("slider");
    reveal_strlit("spinbutton");
    reveal_strlit("status");
    reveal_strlit("switch");
    reveal_strlit("tab");
    reveal_strlit("table");
    reveal_strlit("tablist");
    reveal_strlit("tabpanel");
    reveal_strlit("term");
    reveal_strlit("textbox");
    reveal_strlit("timer");
    reveal_strlit("toolbar");
    reveal_strlit("tooltip");
    reveal_strlit("tree");
    reveal_strlit("treegrid");
    reveal_strlit("treeitem");
    reveal_strlit("command");
    reveal_strlit("composite");
    reveal_strlit("input");
    reveal_strlit("landmark");
    reveal_strlit("range");
    reveal_strlit("roletype");
    reveal_strlit("section");
    reveal_strlit("sectionhead");
    reveal_strlit("select");
    reveal_strlit("structure");
    reveal_strlit("widget");
    reveal_strlit("window");
    assert("alert"@ != "group"@) by {
        assert("alert"@[0] != "group"@[0]);
    }
    assert("alertdialog"@ != "group"@) by {
        assert("alertdialog"@.len() != "group"@.len());
    }
    assert("application"@ != "group"@) by {
        assert("application"@.len() != "group"@.len());
    }
    assert("article"@ != "group"@) by {
        assert("article"@.len() != "group"@.len());
    }
    assert("banner"@ != "group"@) by {
        assert("banner"@.len() != "group"@.len());
    }
    assert("button"@ != "group"@) by {
        assert("button"@.len() != "group"@.len());
    }
    assert("cell"@ != "group"@) by {
        assert("cell"@.len() != "group"@.len());
    }
    assert("checkbox"@ != "group"@) by {
        assert("checkbox"@.len() != "group"@.len());
    }
    assert("columnheader"@ != "group"@) by {
        assert("columnheader"@.len() != "group"@.len());
    }
    assert("combobox"@ != "group"@) by {
        assert("combobox"@.len() != "group"@.len());
    }
    assert("complementary"@ != "group"@) by {
        assert("complementary"@.len() != "group"@.len());
    }
    assert("contentinfo"@ != "group"@) by {
        assert("contentinfo"@.len() != "group"@.len());
    }
    assert("definition"@ != "group"@) by {
        assert("definition"@.len() != "group"@.len());
    }
    assert("dialog"@ != "group"@) by {
        assert("dialog"@.len() != "group"@.len());
    }
    assert("directory"@ != "group"@) by {
        assert("directory"@.len() != "group"@.len());
    }
    assert("document"@ != "group"@) by {
        assert("document"@.len() != "group"@.len());
    }
    assert("feed"@ != "group"@) by {
        assert("feed"@.len() != "group"@.len());
    }
    assert("figure"@ != "group"@) by {
        assert("figure"@.len() != "group"@.len());
    }
    assert("form"@ != "group"@) by {
        assert("form"@.len() != "group"@.len());
    }
    assert("grid"@ != "group"@) by {
        assert("grid"@.len() != "group"@.len());
    }
    assert("gridcell"@ != "group"@) by {
        assert("gridcell"@.len() != "group"@.len());
    }
    assert("heading"@ != "group"@) by {
        assert("heading"@.len() != "group"@.len());
    }
    assert("img"@ != "group"@) by {
        assert("img"@.len() != "group"@.len());
    }
    assert("link"@ != "group"@) by {
        assert("link"@.len() != "group"@.len());
    }
    assert("list"@ != "group"@) by {
        assert("list"@.len() != "group"@.len());
    }
    assert("listbox"@ != "group"@) by {
        assert("listbox"@.len() != "group"@.len());
    }
    assert("listitem"@ != "group"@) by {
        assert("listitem"@.len() != "group"@.len());
    }
    assert("log"@ != "group"@) by {
        assert("log"@.len() != "group"@.len());
    }
    assert("main"@ != "group"@) by {
        assert("main"@.len() != "group"@.len());
    }
    assert("marquee"@ != "group"@) by {
        assert("marquee"@.len() != "group"@.len());
    }
    assert("math"@ != "group"@) by {
        assert("math"@.len() != "group"@.len());
    }
    assert("menu"@ != "group"@) by {
        assert("menu"@.len() != "group"@.len());
    }
    assert("menubar"@ != "group"@) by {
        assert("menubar"@.len() != "group"@.len());
    }
    assert("menuitem"@ != "group"@) by {
        assert("menuitem"@.len() != "group"@.len());
    }
    assert("menuitemcheckbox"@ != "group"@) by {
        assert("menuitemcheckbox"@.len() != "group"@.len());
    }
    assert("menuitemradio"@ != "group"@) by {
        assert("menuitemradio"@.len() != "group"@.len());
    }
    assert("meter"@ != "group"@) by {
        assert("meter"@[0] != "group"@[0]);
    }
    assert("navigation"@ != "group"@) by {
        assert("navigation"@.len() != "group"@.len());
    }
    assert("none"@ != "group"@) by {
        assert("none"@.len() != "group"@.len());
    }
    assert("note"@ != "group"@) by {
        assert("note"@.len() != "group"@.len());
    }
    assert("option"@ != "group"@) by {
        assert("option"@.len() != "group"@.len());
    }
    assert("presentation"@ != "group"@) by {
        assert("presentation"@.len() != "group"@.len());
    }
    assert("progressbar"@ != "group"@) by {
        assert("progressbar"@.len() != "group"@.len());
    }
    assert("radio"@ != "group"@) by {
        assert("radio"@[0] != "group"@[0]);
    }
    assert("radiogroup"@ != "group"@) by {
        assert("radiogroup"@.len() != "group"@.len());
    }
    assert("region"@ != "group"@) by {
        assert("region"@.len() != "group"@.len());
    }
    assert("row"@ != "group"@) by {
        assert("row"@.len() != "group"@.len());
    }
    assert("rowgroup"@ != "group"@) by {
        assert("rowgroup"@.len() != "group"@.len());
    }
    assert("rowheader"@ != "group"@) by {
        assert("rowheader"@.len() != "group"@.len());
    }
    assert("scrollbar"@ != "group"@) by {
        assert("scrollbar"@.len() != "group"@.len());
    }
    assert("search"@ != "group"@) by {
        assert("search"@.len() != "group"@.len());
    }
    assert("searchbox"@ != "group"@) by {
        assert("searchbox"@.len() != "group"@.len());
    }
    assert("separator"@ != "group"@) by {
        assert("separator"@.len() != "group"@.len());
    }
    assert("slider"@ != "group"@) by {
        assert("slider"@.len() != "group"@.len());
    }
    assert("spinbutton"@ != "group"@) by {
        assert("spinbutton"@.len() != "group"@.len());
    }
    assert("status"@ != "group"@) by {
        assert("status"@.len() != "group"@.len());
    }
    assert("switch"@ != "group"@) by {
        assert("switch"@.len() != "group"@.len());
    }
    assert("tab"@ != "group"@) by {
        assert("tab"@.len() != "group"@.len());
    }
    assert("table"@ != "group"@) by {
        assert("table"@[0] != "group"@[0]);
    }
    assert("tablist"@ != "group"@) by {
        assert("tablist"@.len() != "group"@.len());
    }
    assert("tabpanel"@ != "group"@) by {
        assert("tabpanel"@.len() != "group"@.len());
    }
    assert("term"@ != "group"@) by {
        assert("term"@.len() != "group"@.len());
    }
    assert("textbox"@ != "group"@) by {
        assert("textbox"@.len() != "group"@.len());
    }
    assert("timer"@ != "group"@) by {
        assert("timer"@[0] != "group"@[0]);
    }
    assert("toolbar"@ != "group"@) by {
        assert("toolbar"@.len() != "group"@.len());
    }
    assert("tooltip"@ != "group"@) by {
        assert("tooltip"@.len() != "group"@.len());
    }
    assert("tree"@ != "group"@) by {
        assert("tree"@.len() != "group"@.len());
    }
    assert("treegrid"@ != "group"@) by {
        assert("treegrid"@.len() != "group"@.len());
    }
    assert("treeitem"@ != "group"@) by {
        assert("treeitem"@.len() != "group"@.len());
    }
    assert("command"@ != "group"@) by {
        assert("command"@.len() != "group"@.len());
    }
    assert("composite"@ != "group"@) by {
        assert("composite"@.len() != "group"@.len());
    }
    assert("input"@ != "group"@) by {
        assert("input"@[0] != "group"@[0]);
    }
    assert("landmark"@ != "group"@) by {
        assert("landmark"@.len() != "group"@.len());
    }
    assert("range"@ != "group"@) by {
        assert("range"@[0] != "group"@[0]);
    }
    assert("roletype"@ != "group"@) by {
        assert("roletype"@.len() != "group"@.len());
    }
    assert("section"@ != "group"@) by {
        assert("section"@.len() != "group"@.len());
    }
    assert("sectionhead"@ != "group"@) by {
        assert("sectionhead"@.len() != "group"@.len());
    }
    assert("select"@ != "group"@) by {
        assert("select"@.len() != "group"@.len());
    }
    assert("structure"@ != "group"@) by {
        assert("structure"@.len() != "group"@.len());
    }
    assert("widget"@ != "group"@) by {
        assert("widget"@.len() != "group"@.len());
    }
    assert("window"@ != "group"@) by {
        assert("window"@.len() != "group"@.len());
    }
}

proof fn role_name_unique_heading(b: Role)
    requires
        b.name_spec() == "heading"@,
    ensures
        b == Role::Heading,
{
    reveal_strlit("alert");
    reveal_strlit("alertdialog");
    reveal_strlit("application");
    reveal_strlit("article");
    reveal_strlit("banner");
    reveal_strlit("button");
    reveal_strlit("cell");
    reveal_strlit("checkbox");
    reveal_strlit("columnheader");
    reveal_strlit("combobox");
    reveal_strlit("complementary");
    reveal_strlit("contentinfo");
    reveal_strlit("definition");
    reveal_strlit("dialog");
    reveal_strlit("directory");
    reveal_strlit("document");
    reveal_strlit("feed");
    reveal_strlit("figure");
    reveal_strlit("form");
    reveal_strlit("grid");
    reveal_strlit("gridcell");
    reveal_strlit("group");
    reveal_strlit("heading");
    reveal_strlit("img");
    reveal_strlit("link");
    reveal_strlit("list");
    reveal_strlit("listbox");
    reveal_strlit("listitem");
    reveal_strlit("log");
    reveal_strlit("main");
    reveal_strlit("marquee");
    reveal_strlit("math");
    reveal_strlit("menu");
    reveal_strlit("menubar");
    reveal_strlit("menuitem");
    reveal_strlit("menuitemcheckbox");
    reveal_strlit("menuitemradio");
    reveal_strlit("meter");
    reveal_strlit("navigation");
    reveal_strlit("none");
    reveal_strlit("note");
    reveal_strlit("option");
    reveal_strlit("presentation");
    reveal_strlit("progressbar");
    reveal_strlit("radio");
    reveal_strlit("radiogroup");
    reveal_strlit("region");
    reveal_strlit("row");
    reveal_strlit("rowgroup");
    reveal_strlit("rowheader");
    reveal_strlit("scrollbar");
    reveal_strlit("search");
    reveal_strlit("searchbox");
    reveal_strlit("separator");
    reveal_strlit("slider");
    reveal_strlit("spinbutton");
    reveal_strlit("status");
    reveal_strlit("switch");
    reveal_strlit("tab");
    reveal_strlit("table");
    reveal_strlit("tablist");
    reveal_strlit("tabpanel");
    reveal_strlit("term");
    reveal_strlit("textbox");
    reveal_strlit("timer");
    reveal_strlit("toolbar");
    reveal_strlit("tooltip");
    reveal_strlit("tree");
    reveal_strlit("treegrid");
    reveal_strlit("treeitem");
    reveal_strlit("command");
    reveal_strlit("composite");
    reveal_strlit("input");
    reveal_strlit("landmark");
    reveal_strlit("range");
    reveal_strlit("roletype");
    reveal_strlit("section");
    reveal_strlit("sectionhead");
    reveal_strlit("select");
    reveal_strlit("structure");
    reveal_strlit("widget");
    reveal_strlit("window");
    assert("alert"@ != "heading"@) by {
        assert("alert"@.len() != "heading"@.len());
    }
    assert("alertdialog"@ != "heading"@) by {
        assert("alertdialog"@.len() != "heading"@.len());
    }
    assert("application"@ != "heading"@) by {
        assert("application"@.len() != "heading"@.len());
    }
    assert("article"@ != "heading"@) by {
        assert("article"@[0] != "heading"@[0]);
    }
    assert("banner"@ != "heading"@) by {
        assert("banner"@.len() != "heading"@.len());
    }
    assert("button"@ != "heading"@) by {
        assert("button"@.len() != "heading"@.len());
    }
    assert("cell"@ != "heading"@) by {
        assert("cell"@.len() != "heading"@.len());
    }
    assert("checkbox"@ != "heading"@) by {
        assert("checkbox"@.len() != "heading"@.len());
    }
    assert("columnheader"@ != "heading"@) by {
        assert("columnheader"@.len() != "heading"@.len());
    }
    assert("combobox"@ != "heading"@) by {
        assert("combobox"@.len() != "heading"@.len());
    }
    assert("complementary"@ != "heading"@) by {
        assert("complementary"@.len() != "heading"@.len());
    }
    assert("contentinfo"@ != "heading"@) by {
        assert("contentinfo"@.len() != "heading"@.len());
    }
    assert("definition"@ != "heading"@) by {
        assert("definition"@.len() != "heading"@.len());
    }
    assert("dialog"@ != "heading"@) by {
        assert("dialog"@.len() != "heading"@.len());
    }
    assert("directory"@ != "heading"@) by {
        assert("directory"@.len() != "heading"@.len());
    }
    assert("document"@ != "heading"@) by {
        assert("document"@.len() != "heading"@.len());
    }
    assert("feed"@ != "heading"@) by {
        assert("feed"@.len() != "heading"@.len());
    }
    assert("figure"@ != "heading"@) by {
        assert("figure"@.len() != "heading"@.len());
    }
    assert("form"@ != "heading"@) by {
        assert("form"@.len() != "heading"@.len());
    }
    assert("grid"@ != "heading"@) by {
        assert("grid"@.len() != "heading"@.len());
    }
    assert("gridcell"@ != "heading"@) by {
        assert("gridcell"@.len() != "heading"@.len());
    }
    assert("group"@ != "heading"@) by {
        assert("group"@.len() != "heading"@.len());
    }
    assert("img"@ != "heading"@) by {
        assert("img"@.len() != "heading"@.len());
    }
    assert("link"@ != "heading"@) by {
        assert("link"@.len() != "heading"@.len());
    }
    assert("list"@ != "heading"@) by {
        assert("list"@.len() != "heading"@.len());
    }
    assert("listbox"@ != "heading"@) by {
        assert("listbox"@[0] != "heading"@[0]);
    }
    assert("listitem"@ != "heading"@) by {
        assert("listitem"@.len() != "heading"@.len());
    }
    assert("log"@ != "heading"@) by {
        assert("log"@.len() != "heading"@.len());
    }
    assert("main"@ != "heading"@) by {
        assert("main"@.len() != "heading"@.len());
    }
    assert("marquee"@ != "heading"@) by {
        assert("marquee"@[0] != "heading"@[0]);
    }
    assert("math"@ != "heading"@) by {
        assert("math"@.len() != "heading"@.len());
    }
    assert("menu"@ != "heading"@) by {
        assert("menu"@.len() != "heading"@.len());
    }
    assert("menubar"@ != "heading"@) by {
        assert("menubar"@[0] != "heading"@[0]);
    }
    assert("menuitem"@ != "heading"@) by {
        assert("menuitem"@.len() != "heading"@.len());
    }
    assert("menuitemcheckbox"@ != "heading"@) by {
        assert("menuitemcheckbox"@.len() != "heading"@.len());
    }
    assert("menuitemradio"@ != "heading"@) by {
        assert("menuitemradio"@.len() != "heading"@.len());
    }
    assert("meter"@ != "heading"@) by {
        assert("meter"@.len() != "heading"@.len());
    }
    assert("navigation"@ != "heading"@) by {
        assert("navigation"@.len() != "heading"@.len());
    }
    assert("none"@ != "heading"@) by {
        assert("none"@.len() != "heading"@.len());
    }
    assert("note"@ != "heading"@) by {
        assert("note"@.len() != "heading"@.len());
    }
    assert("option"@ != "heading"@) by {
        assert("option"@.len() != "heading"@.len());
    }
    assert("presentation"@ != "heading"@) by {
        assert("presentation"@.len() != "heading"@.len());
    }
    assert("progressbar"@ != "heading"@) by {
        assert("progressbar"@.len() != "heading"@.len());
    }
    assert("radio"@ != "heading"@) by {
        assert("radio"@.len() != "heading"@.len());
    }
    assert("radiogroup"@ != "heading"@) by {
        assert("radiogroup"@.len() != "heading"@.len());
    }
    assert("region"@ != "heading"@) by {
        assert("region"@.len() != "heading"@.len());
    }
    assert("row"@ != "heading"@) by {
        assert("row"@.len() != "heading"@.len());
    }
    assert("rowgroup"@ != "heading"@) by {
        assert("rowgroup"@.len() != "heading"@.len());
    }
    assert("rowheader"@ != "heading"@) by {
        assert("rowheader"@.len() != "heading"@.len());
    }
    assert("scrollbar"@ != "heading"@) by {
        assert("scrollbar"@.len() != "heading"@.len());
    }
    assert("search"@ != "heading"@) by {
        assert("search"@.len() != "heading"@.len());
    }
    assert("searchbox"@ != "heading"@) by {
        assert("searchbox"@.len() != "heading"@.len());
    }
    assert("separator"@ != "heading"@) by {
        assert("separator"@.len() != "heading"@.len());
    }
    assert("slider"@ != "heading"@) by {
        assert("slider"@.len() != "heading"@.len());
    }
    assert("spinbutton"@ != "heading"@) by {
        assert("spinbutton"@.len() != "heading"@.len());
    }
    assert("status"@ != "heading"@) by {
        assert("status"@.len() != "heading"@.len());
    }
    assert("switch"@ != "heading"@) by {
        assert("switch"@.len() != "heading"@.len());
    }
    assert("tab"@ != "heading"@) by {
        assert("tab"@.len() != "heading"@.len());
    }
    assert("table"@ != "heading"@) by {
        assert("table"@.len() != "heading"@.len());
    }
    assert("tablist"@ != "heading"@) by {
        assert("tablist"@[0] != "heading"@[0]);
    }
    assert("tabpanel"@ != "heading"@) by {
        assert("tabpanel"@.len() != "heading"@.len());
    }
    assert("term"@ != "heading"@) by {
        assert("term"@.len() != "heading"@.len());
    }
    assert("textbox"@ != "heading"@) by {
        assert("textbox"@[0] != "heading"@[0]);
    }
    assert("timer"@ != "heading"@) by {
        assert("timer"@.len() != "heading"@.len());
    }
    assert("toolbar"@ != "heading"@) by {
        assert("toolbar"@[0] != "heading"@[0]);
    }
    assert("tooltip"@ != "heading"@) by {
        assert("tooltip"@[0] != "heading"@[0]);
    }
    assert("tree"@ != "heading"@) by {
        assert("tree"@.len() != "heading"@.len());
    }
    assert("treegrid"@ != "heading"@) by {
        assert("treegrid"@.len() != "heading"@.len());
    }
    assert("treeitem"@ != "heading"@) by {
        assert("treeitem"@.len() != "heading"@.len());
    }
    assert("command"@ != "heading"@) by {
        assert("command"@[0] != "heading"@[0]);
    }
    assert("composite"@ != "heading"@) by {
        assert("composite"@.len() != "heading"@.len());
    }
    assert("input"@ != "heading"@) by {
        assert("input"@.len() != "heading"@.len());
    }
    assert("landmark"@ != "heading"@) by {
        assert("landmark"@.len() != "heading"@.len());
    }
    assert("range"@ != "heading"@) by {
        assert("range"@.len() != "heading"@.len());
    }
    assert("roletype"@ != "heading"@) by {
        assert("roletype"@.len() != "heading"@.len());
    }
    assert("section"@ != "heading"@) by {
        assert("section"@[0] != "heading"@[0]);
    }
    assert("sectionhead"@ != "heading"@) by {
        assert("sectionhead"@.len() != "heading"@.len());
    }
    assert("select"@ != "heading"@) by {
        assert("select"@.len() != "heading"@.len());
    }
    assert("structure"@ != "heading"@) by {
        assert("structure"@.len() != "heading"@.len());
    }
    assert("widget"@ != "heading"@) by {
        assert("widget"@.len() != "heading"@.len());
    }
    assert("window"@ != "heading"@) by {
        assert("window"@.len() != "heading"@.len());
    }
}

proof fn role_name_unique_img(b: Role)
    requires
        b.name_spec() == "img"@,
    ensures
        b == Role::Img,
{
    reveal_strlit("alert");
    reveal_strlit("alertdialog");
    reveal_strlit("application");
    reveal_strlit("article");
    reveal_strlit("banner");
    reveal_strlit("button");
    reveal_strlit("cell");
    reveal_strlit("checkbox");
    reveal_strlit("columnheader");
    reveal_strlit("combobox");
    reveal_strlit("complementary");
    reveal_strlit("contentinfo");
    reveal_strlit("definition");
    reveal_strlit("dialog");
    reveal_strlit("directory");
    reveal_strlit("document");
    reveal_strlit("feed");
    reveal_strlit("figure");
    reveal_strlit("form");
    reveal_strlit("grid");
    reveal_strlit("gridcell");
    reveal_strlit("group");
    reveal_strlit("heading");
    reveal_strlit("img");
    reveal_strlit("link");
    reveal_strlit("list");
    reveal_strlit("listbox");
    reveal_strlit("listitem");
    reveal_strlit("log");
    reveal_strlit("main");
    reveal_strlit("marquee");
    reveal_strlit("math");
    reveal_strlit("menu");
    reveal_strlit("menubar");
    reveal_strlit("menuitem");
    reveal_strlit("menuitemcheckbox");
    reveal_strlit("menuitemradio");
    reveal_strlit("meter");
    reveal_strlit("navigation");
    reveal_strlit("none");
    reveal_strlit("note");
    reveal_strlit("option");
    reveal_strlit("presentation");
    reveal_strlit("progressbar");
    reveal_strlit("radio");
    reveal_strlit("radiogroup");
    reveal_strlit("region");
    reveal_strlit("row");
    reveal_strlit("rowgroup");
    reveal_strlit("rowheader");
    reveal_strlit("scrollbar");
    reveal_strlit("search");
    reveal_strlit("searchbox");
    reveal_strlit("separator");
    reveal_strlit("slider");
    reveal_strlit("spinbutton");
    reveal_strlit("status");
    reveal_strlit("switch");
    reveal_strlit("tab");
    reveal_strlit("table");
    reveal_strlit("tablist");
    reveal_strlit("tabpanel");
    reveal_strlit("term");
    reveal_strlit("textbox");
    reveal_strlit("timer");
    reveal_strlit("toolbar");
    reveal_strlit("tooltip");
    reveal_strlit("tree");
    reveal_strlit("treegrid");
    reveal_strlit("treeitem");
    reveal_strlit("command");
    reveal_strlit("composite");
    reveal_strlit("input");
    reveal_strlit("landmark");
    reveal_strlit("range");
    reveal_strlit("roletype");
    reveal_strlit("section");
    reveal_strlit("sectionhead");
    reveal_strlit("select");
    reveal_strlit("structure");
    reveal_strlit("widget");
    reveal_strlit("window");
    assert("alert"@ != "img"@) by {
        assert("alert"@.len() != "img"@.len());
    }
    assert("alertdialog"@ != "img"@) by {
        assert("alertdialog"@.len() != "img"@.len());
    }
    assert("application"@ != "img"@) by {
        assert("application"@.len() != "img"@.len());
    }
    assert("article"@ != "img"@) by {
        assert("article"@.len() != "img"@.len());
    }
    assert("banner"@ != "img"@) by {
        assert("banner"@.len() != "img"@.len());
    }
    assert("button"@ != "img"@) by {
        assert("button"@.len() != "img"@.len());
    }
    assert("cell"@ != "img"@) by {
        assert("cell"@.len() != "img"@.len());
    }
    assert("checkbox"@ != "img"@) by {
        assert("checkbox"@.len() != "img"@.len());
    }
    assert("columnheader"@ != "img"@) by {
        assert("columnheader"@.len() != "img"@.len());
    }
    assert("combobox"@ != "img"@) by {
        assert("combobox"@.len() != "img"@.len());
    }
    assert("complementary"@ != "img"@) by {
        assert("complementary"@.len() != "img"@.len());
    }
    assert("contentinfo"@ != "img"@) by {
        assert("contentinfo"@.len() != "img"@.len());
    }
    assert("definition"@ != "img"@) by {
        assert("definition"@.len() != "img"@.len());
    }
    assert("dialog"@ != "img"@) by {
        assert("dialog"@.len() != "img"@.len());
    }
    assert("directory"@ != "img"@) by {
        assert("directory"@.len() != "img"@.len());
    }
    assert("document"@ != "img"@) by {
        assert("document"@.len() != "img"@.len());
    }
    assert("feed"@ != "img"@) by {
        assert("feed"@.len() != "img"@.len());
    }
    assert("figure"@ != "img"@) by {
        assert("figure"@.len() != "img"@.len());
    }
    assert("form"@ != "img"@) by {
        assert("form"@.len() != "img"@.len());
    }
    assert("grid"@ != "img"@) by {
        assert("grid"@.len() != "img"@.len());
    }
    assert("gridcell"@ != "img"@) by {
        assert("gridcell"@.len() != "img"@.len());
    }
    assert("group"@ != "img"@) by {
        assert("group"@.len() != "img"@.len());
    }
    assert("heading"@ != "img"@) by {
        assert("heading"@.len() != "img"@.len());
    }
    assert("link"@ != "img"@) by {
        assert("link"@.len() != "img"@.len());
    }
    assert("list"@ != "img"@) by {
        assert("list"@.len() != "img"@.len());
    }
    assert("listbox"@ != "img"@) by {
        assert("listbox"@.len() != "img"@.len());
    }
    assert("listitem"@ != "img"@) by {
        assert("listitem"@.len() != "img"@.len());
    }
    assert("log"@ != "img"@) by {
        assert("log"@[0] != "img"@[0]);
    }
    assert("main"@ != "img"@) by {
        assert("main"@.len() != "img"@.len());
    }
    assert("marquee"@ != "img"@) by {
        assert("marquee"@.len() != "img"@.len());
    }
    assert("math"@ != "img"@) by {
        assert("math"@.len() != "img"@.len());
    }
    assert("menu"@ != "img"@) by {
        assert("menu"@.len() != "img"@.len());
    }
    assert("menubar"@ != "img"@) by {
        assert("menubar"@.len() != "img"@.len());
    }
    assert("menuitem"@ != "img"@) by {
        assert("menuitem"@.len() != "img"@.len());
    }
    assert("menuitemcheckbox"@ != "img"@) by {
        assert("menuitemcheckbox"@.len() != "img"@.len());
    }
    assert("menuitemradio"@ != "img"@) by {
        assert("menuitemradio"@.len() != "img"@.len());
    }
    assert("meter"@ != "img"@) by {
        assert("meter"@.len() != "img"@.len());
    }
    assert("navigation"@ != "img"@) by {
        assert("navigation"@.len() != "img"@.len());
    }
    assert("none"@ != "img"@) by {
        assert("none"@.len() != "img"@.len());
    }
    assert("note"@ != "img"@) by {
        assert("note"@.len() != "img"@.len());
    }
    assert("option"@ != "img"@) by {
        assert("option"@.len() != "img"@.len());
    }
    assert("presentation"@ != "img"@) by {
        assert("presentation"@.len() != "img"@.len());
    }
    assert("progressbar"@ != "img"@) by {
        assert("progressbar"@.len() != "img"@.len());
    }
    assert("radio"@ != "img"@) by {
        assert("radio"@.len() != "img"@.len());
    }
    assert("radiogroup"@ != "img"@) by {
        assert("radiogroup"@.len() != "img"@.len());
    }
    assert("region"@ != "img"@) by {
        assert("region"@.len() != "img"@.len());
    }
    assert("row"@ != "img"@) by {
        assert("row"@[0] != "img"@[0]);
    }
    assert("rowgroup"@ != "img"@) by {
        assert("rowgroup"@.len() != "img"@.len());
    }
    assert("rowheader"@ != "img"@) by {
        assert("rowheader"@.len() != "img"@.len());
    }
    assert("scrollbar"@ != "img"@) by {
        assert("scrollbar"@.len() != "img"@.len());
    }
    assert("search"@ != "img"@) by {
        assert("search"@.len() != "img"@.len());
    }
    assert("searchbox"@ != "img"@) by {
        assert("searchbox"@.len() != "img"@.len());
    }
    assert("separator"@ != "img"@) by {
        assert("separator"@.len() != "img"@.len());
    }
    assert("slider"@ != "img"@) by {
        assert("slider"@.len() != "img"@.len());
    }
    assert("spinbutton"@ != "img"@) by {
        assert("spinbutton"@.len() != "img"@.len());
    }
    assert("status"@ != "img"@) by {
        assert("status"@.len() != "img"@.len());
    }
    assert("switch"@ != "img"@) by {
        assert("switch"@.len() != "img"@.len());
    }
    assert("tab"@ != "img"@) by {
        assert("tab"@[0] != "img"@[0]);
    }
    assert("table"@ != "img"@) by {
        assert("table"@.len() != "img"@.len());
    }
    assert("tablist"@ != "img"@) by {
        assert("tablist"@.len() != "img"@.len());
    }
    assert("tabpanel"@ != "img"@) by {
        assert("tabpanel"@.len() != "img"@.len());
    }
    assert("term"@ != "img"@) by {
        assert("term"@.len() != "img"@.len());
    }
    assert("textbox"@ != "img"@) by {
        assert("textbox"@.len() != "img"@.len());
    }
    assert("timer"@ != "img"@) by {
        assert("timer"@.len() != "img"@.len());
    }
    assert("toolbar"@ != "img"@) by {
        assert("toolbar"@.len() != "img"@.len());
    }
    assert("tooltip"@ != "img"@) by {
        assert("tooltip"@.len() != "img"@.len());
    }
    assert("tree"@ != "img"@) by {
        assert("tree"@.len() != "img"@.len());
    }
    assert("treegrid"@ != "img"@) by {
        assert("treegrid"@.len() != "img"@.len());
    }
    assert("treeitem"@ != "img"@) by {
        assert("treeitem"@.len() != "img"@.len());
    }
    assert("command"@ != "img"@) by {
        assert("command"@.len() != "img"@.len());
    }
    assert("composite"@ != "img"@) by {
        assert("composite"@.len() != "img"@.len());
    }
    assert("input"@ != "img"@) by {
        assert("input"@.len() != "img"@.len());
    }
    assert("landmark"@ != "img"@) by {
        assert("landmark"@.len() != "img"@.len());
    }
    assert("range"@ != "img"@) by {
        assert("range"@.len() != "img"@.len());
    }
    assert("roletype"@ != "img"@) by {
        assert("roletype"@.len() != "img"@.len());
    }
    assert("section"@ != "img"@) by {
        assert("section"@.len() != "img"@.len());
    }
    assert("sectionhead"@ != "img"@) by {
        assert("sectionhead"@.len() != "img"@.len());
    }
    assert("select"@ != "img"@) by {
        assert("select"@.len() != "img"@.len());
    }
    assert("structure"@ != "img"@) by {
        assert("structure"@.len() != "img"@.len());
    }
    assert("widget"@ != "img"@) by {
        assert("widget"@.len() != "img"@.len());
    }
    assert("window"@ != "img"@) by {
        assert("window"@.len() != "img"@.len());
    }
}

proof fn role_name_unique_link(b: Role)
    requires
        b.name_spec() == "link"@,
    ensures
        b == Role::Link,
{
    reveal_strlit("alert");
    reveal_strlit("alertdialog");
    reveal_strlit("application");
    reveal_strlit("article");
    reveal_strlit("banner");
    reveal_strlit("button");
    reveal_strlit("cell");
    reveal_strlit("checkbox");
    reveal_strlit("columnheader");
    reveal_strlit("combobox");
    reveal_strlit("complementary");
    reveal_strlit("contentinfo");
    reveal_strlit("definition");
    reveal_strlit("dialog");
    reveal_strlit("directory");
    reveal_strlit("document");
    reveal_strlit("feed");
    reveal_strlit("figure");
    reveal_strlit("form");
    reveal_strlit("grid");
    reveal_strlit("gridcell");
    reveal_strlit("group");
    reveal_strlit("heading");
    reveal_strlit("img");
    reveal_strlit("link");
    reveal_strlit("list");
    reveal_strlit("listbox");
    reveal_strlit("listitem");
    reveal_strlit("log");
    reveal_strlit("main");
    reveal_strlit("marquee");
    reveal_strlit("math");
    reveal_strlit("menu");
    reveal_strlit("menubar");
    reveal_strlit("menuitem");
    reveal_strlit("menuitemcheckbox");
    reveal_strlit("menuitemradio");
    reveal_strlit("meter");
    reveal_strlit("navigation");
    reveal_strlit("none");
    reveal_strlit("note");
    reveal_strlit("option");
    reveal_strlit("presentation");
    reveal_strlit("progressbar");
    reveal_strlit("radio");
    reveal_strlit("radiogroup");
    reveal_strlit("region");
    reveal_strlit("row");
    reveal_strlit("rowgroup");
    reveal_strlit("rowheader");
    reveal_strlit("scrollbar");
    reveal_strlit("search");
    reveal_strlit("searchbox");
    reveal_strlit("separator");
    reveal_strlit("slider");
    reveal_strlit("spinbutton");
    reveal_strlit("status");
    reveal_strlit("switch");
    reveal_strlit("tab");
    reveal_strlit("table");
    reveal_strlit("tablist");
    reveal_strlit("tabpanel");
    reveal_strlit("term");
    reveal_strlit("textbox");
    reveal_strlit("timer");
    reveal_strlit("toolbar");
    reveal_strlit("tooltip");
    reveal_strlit("tree");
    reveal_strlit("treegrid");
    reveal_strlit("treeitem");
    reveal_strlit("command");
    reveal_strlit("composite");
    reveal_strlit("input");
    reveal_strlit("landmark");
    reveal_strlit("range");
    reveal_strlit("roletype");
    reveal_strlit("section");
    reveal_strlit("sectionhead");
    reveal_strlit("select");
    reveal_strlit("structure");
    reveal_strlit("widget");
    reveal_strlit("window");
    assert("alert"@ != "link"@) by {
        assert("alert"@.len() != "link"@.len());
    }
    assert("alertdialog"@ != "link"@) by {
        assert("alertdialog"@.len() != "link"@.len());
    }
    assert("application"@ != "link"@) by {
        assert("application"@.len() != "link"@.len());
    }
    assert("article"@ != "link"@) by {
        assert("article"@.len() != "link"@.len());
    }
    assert("banner"@ != "link"@) by {
        assert("banner"@.len() != "link"@.len());
    }
    assert("button"@ != "link"@) by {
        assert("button"@.len() != "link"@.len());
    }
    assert("cell"@ != "link"@) by {
        assert("cell"@[0] != "link"@[0]);
    }
    assert("checkbox"@ != "link"@) by {
        assert("checkbox"@.len() != "link"@.len());
    }
    assert("columnheader"@ != "link"@) by {
        assert("columnheader"@.len() != "link"@.len());
    }
    assert("combobox"@ != "link"@) by {
        assert("combobox"@.len() != "link"@.len());
    }
    assert("complementary"@ != "link"@) by {
        assert("complementary"@.len() != "link"@.len());
    }
    assert("contentinfo"@ != "link"@) by {
        assert("contentinfo"@.len() != "link"@.len());
    }
    assert("definition"@ != "link"@) by {
        assert("definition"@.len() != "link"@.len());
    }
    assert("dialog"@ != "link"@) by {
        assert("dialog"@.len() != "link"@.len());
    }
    assert("directory"@ != "link"@) by {
        assert("directory"@.len() != "link"@.len());
    }
    assert("document"@ != "link"@) by {
        assert("document"@.len() != "link"@.len());
    }
    assert("feed"@ != "link"@) by {
        assert("feed"@[0] != "link"@[0]);
    }
    assert("figure"@ != "link"@) by {
        assert("figure"@.len() != "link"@.len());
    }
    assert("form"@ != "link"@) by {
        assert("form"@[0] != "link"@[0]);
    }
    assert("grid"@ != "link"@) by {
        assert("grid"@[0] != "link"@[0]);
    }
    assert("gridcell"@ != "link"@) by {
        assert("gridcell"@.len() != "link"@.len());
    }
    assert("group"@ != "link"@) by {
        assert("group"@.len() != "link"@.len());
    }
    assert("heading"@ != "link"@) by {
        assert("heading"@.len() != "link"@.len());
    }
    assert("img"@ != "link"@) by {
        assert("img"@.len() != "link"@.len());
    }
    assert("list"@ != "link"@) by {
        assert("list"@[2] != "link"@[2]);
    }
    assert("listbox"@ != "link"@) by {
        assert("listbox"@.len() != "link"@.len());
    }
    assert("listitem"@ != "link"@) by {
        assert("listitem"@.len() != "link"@.len());
    }
    assert("log"@ != "link"@) by {
        assert("log"@.len() != "link"@.len());
    }
    assert("main"@ != "link"@) by {
        assert("main"@[0] != "link"@[0]);
    }
    assert("marquee"@ != "link"@) by {
        assert("marquee"@.len() != "link"@.len());
    }
    assert("math"@ != "link"@) by {
        assert("math"@[0] != "link"@[0]);
    }
    assert("menu"@ != "link"@) by {
        assert("menu"@[0] != "link"@[0]);
    }
    assert("menubar"@ != "link"@) by {
        assert("menubar"@.len() != "link"@.len());
    }
    assert("menuitem"@ != "link"@) by {
        assert("menuitem"@.len() != "link"@.len());
    }
    assert("menuitemcheckbox"@ != "link"@) by {
        assert("menuitemcheckbox"@.len() != "link"@.len());
    }
    assert("menuitemradio"@ != "link"@) by {
        assert("menuitemradio"@.len() != "link"@.len());
    }
    assert("meter"@ != "link"@) by {
        assert("meter"@.len() != "link"@.len());
    }
    assert("navigation"@ != "link"@) by {
        assert("navigation"@.len() != "link"@.len());
    }
    assert("none"@ != "link"@) by {
        assert("none"@[0] != "link"@[0]);
    }
    assert("note"@ != "link"@) by {
        assert("note"@[0] != "link"@[0]);
    }
    assert("option"@ != "link"@) by {
        assert("option"@.len() != "link"@.len());
    }
    assert("presentation"@ != "link"@) by {
        assert("presentation"@.len() != "link"@.len());
    }
    assert("progressbar"@ != "link"@) by {
        assert("progressbar"@.len() != "link"@.len());
    }
    assert("radio"@ != "link"@) by {
        assert("radio"@.len() != "link"@.len());
    }
    assert("radiogroup"@ != "link"@) by {
        assert("radiogroup"@.len() != "link"@.len());
    }
    assert("region"@ != "link"@) by {
        assert("region"@.len() != "link"@.len());
    }
    assert("row"@ != "link"@) by {
        assert("row"@.len() != "link"@.len());
    }
    assert("rowgroup"@ != "link"@) by {
        assert("rowgroup"@.len() != "link"@.len());
    }
    assert("rowheader"@ != "link"@) by {
        assert("rowheader"@.len() != "link"@.len());
    }
    assert("scrollbar"@ != "link"@) by {
        assert("scrollbar"@.len() != "link"@.len());
    }
    assert("search"@ != "link"@) by {
        assert("search"@.len() != "link"@.len());
    }
    assert("searchbox"@ != "link"@) by {
        assert("searchbox"@.len() != "link"@.len());
    }
    assert("separator"@ != "link"@) by {
        assert("separator"@.len() != "link"@.len());
    }
    assert("slider"@ != "link"@) by {
        assert("slider"@.len() != "link"@.len());
    }
    assert("spinbutton"@ != "link"@) by {
        assert("spinbutton"@.len() != "link"@.len());
    }
    assert("status"@ != "link"@) by {
        assert("status"@.len() != "link"@.len());
    }
    assert("switch"@ != "link"@) by {
        assert("switch"@.len() != "link"@.len());
    }
    assert("tab"@ != "link"@) by {
        assert("tab"@.len() != "link"@.len());
    }
    assert("table"@ != "link"@) by {
        assert("table"@.len() != "link"@.len());
    }
    assert("tablist"@ != "link"@) by {
        assert("tablist"@.len() != "link"@.len());
    }
    assert("tabpanel"@ != "link"@) by {
        assert("tabpanel"@.len() != "link"@.len());
    }
    assert("term"@ != "link"@) by {
        assert("term"@[0] != "link"@[0]);
    }
    assert("textbox"@ != "link"@) by {
        assert("textbox"@.len() != "link"@.len());
    }
    assert("timer"@ != "link"@) by {
        assert("timer"@.len() != "link"@.len());
    }
    assert("toolbar"@ != "link"@) by {
        assert("toolbar"@.len() != "link"@.len());
    }
    assert("tooltip"@ != "link"@) by {
        assert("tooltip"@.len() != "link"@.len());
    }
    assert("tree"@ != "link"@) by {
        assert("tree"@[0] != "link"@[0]);
    }
    assert("treegrid"@ != "link"@) by {
        assert("treegrid"@.len() != "link"@.len());
    }
    assert("treeitem"@ != "link"@) by {
        assert("treeitem"@.len() != "link"@.len());
    }
    assert("command"@ != "link"@) by {
        assert("command"@.len() != "link"@.len());
    }
    assert("composite"@ != "link"@) by {
        assert("composite"@.len() != "link"@.len());
    }
    assert("input"@ != "link"@) by {
        assert("input"@.len() != "link"@.len());
    }
    assert("landmark"@ != "link"@) by {
        assert("landmark"@.len() != "link"@.len());
    }
    assert("range"@ != "link"@) by {
        assert("range"@.len() != "link"@.len());
    }
    assert("roletype"@ != "link"@) by {
        assert("roletype"@.len() != "link"@.len());
    }
    assert("section"@ != "link"@) by {
        assert("section"@.len() != "link"@.len());
    }
    assert("sectionhead"@ != "link"@) by {
        assert("sectionhead"@.len() != "link"@.len());
    }
    assert("select"@ != "link"@) by {
        assert("select"@.len() != "link"@.len());
    }
    assert("structure"@ != "link"@) by {
        assert("structure"@.len() != "link"@.len());
    }
    assert("widget"@ != "link"@) by {
        assert("widget"@.len() != "link"@.len());
    }
    assert("window"@ != "link"@) by {
        assert("window"@.len() != "link"@.len());
    }
}

proof fn role_name_unique_list(b: Role)
    requires
        b.name_spec() == "list"@,
    ensures
        b == Role::List,
{
    reveal_strlit("alert");
    reveal_strlit("alertdialog");
    reveal_strlit("application");
    reveal_strlit("article");
    reveal_strlit("banner");
    reveal_strlit("button");
    reveal_strlit("cell");
    reveal_strlit("checkbox");
    reveal_strlit("columnheader");
    reveal_strlit("combobox");
    reveal_strlit("complementary");
    reveal_strlit("contentinfo");
    reveal_strlit("definition");
    reveal_strlit("dialog");
    reveal_strlit("directory");
    reveal_strlit("document");
    reveal_strlit("feed");
    reveal_strlit("figure");
    reveal_strlit("form");
    reveal_strlit("grid");
    reveal_strlit("gridcell");
    reveal_strlit("group");
    reveal_strlit("heading");
    reveal_strlit("img");
    reveal_strlit("link");
    reveal_strlit("list");
    reveal_strlit("listbox");
    reveal_strlit("listitem");
    reveal_strlit("log");
    reveal_strlit("main");
    reveal_strlit("marquee");
    reveal_strlit("math");
    reveal_strlit("menu");
    reveal_strlit("menubar");
    reveal_strlit("menuitem");
    reveal_strlit("menuitemcheckbox");
    reveal_strlit("menuitemradio");
    reveal_strlit("meter");
    reveal_strlit("navigation");
    reveal_strlit("none");
    reveal_strlit("note");
    reveal_strlit("option");
    reveal_strlit("presentation");
    reveal_strlit("progressbar");
    reveal_strlit("radio");
    reveal_strlit("radiogroup");
    reveal_strlit("region");
    reveal_strlit("row");
    reveal_strlit("rowgroup");
    reveal_strlit("rowheader");
    reveal_strlit("scrollbar");
    reveal_strlit("search");
    reveal_strlit("searchbox");
    reveal_strlit("separator");
    reveal_strlit("slider");
    reveal_strlit("spinbutton");
    reveal_strlit("status");
    reveal_strlit("switch");
    reveal_strlit("tab");
    reveal_strlit("table");
    reveal_strlit("tablist");
    reveal_strlit("tabpanel");
    reveal_strlit("term");
    reveal_strlit("textbox");
    reveal_strlit("timer");
    reveal_strlit("toolbar");
    reveal_strlit("tooltip");
    reveal_strlit("tree");
    reveal_strlit("treegrid");
    reveal_strlit("treeitem");
    reveal_strlit("command");
    reveal_strlit("composite");
    reveal_strlit("input");
    reveal_strlit("landmark");
    reveal_strlit("range");
    reveal_strlit("roletype");
    reveal_strlit("section");
    reveal_strlit("sectionhead");
    reveal_strlit("select");
    reveal_strlit("structure");
    reveal_strlit("widget");
    reveal_strlit("window");
    assert("alert"@ != "list"@) by {
        assert("alert"@.len() != "list"@.len());
    }
    assert("alertdialog"@ != "list"@) by {
        assert("alertdialog"@.len() != "list"@.len());
    }
    assert("application"@ != "list"@) by {
        assert("application"@.len() != "list"@.len());
    }
    assert("article"@ != "list"@) by {
        assert("article"@.len() != "list"@.len());
    }
    assert("banner"@ != "list"@) by {
        assert("banner"@.len() != "list"@.len());
    }
    assert("button"@ != "list"@) by {
        assert("button"@.len() != "list"@.len());
    }
    assert("cell"@ != "list"@) by {
        assert("cell"@[0] != "list"@[0]);
    }
    assert("checkbox"@ != "list"@) by {
        assert("checkbox"@.len() != "list"@.len());
    }
    assert("columnheader"@ != "list"@) by {
        assert("columnheader"@.len() != "list"@.len());
    }
    assert("combobox"@ != "list"@) by {
        assert("combobox"@.len() != "list"@.len());
    }
    assert("complementary"@ != "list"@) by {
        assert("complementary"@.len() != "list"@.len());
    }
    assert("contentinfo"@ != "list"@) by {
        assert("contentinfo"@.len() != "list"@.len());
    }
    assert("definition"@ != "list"@) by {
        assert("definition"@.len() != "list"@.len());
    }
    assert("dialog"@ != "list"@) by {
        assert("dialog"@.len() != "list"@.len());
    }
    assert("directory"@ != "list"@) by {
        assert("directory"@.len() != "list"@.len());
    }
    assert("document"@ != "list"@) by {
        assert("document"@.len() != "list"@.len());
    }
    assert("feed"@ != "list"@) by {
        assert("feed"@[0] != "list"@[0]);
    }
    assert("figure"@ != "list"@) by {
        assert("figure"@.len() != "list"@.len());
    }
    assert("form"@ != "list"@) by {
        assert("form"@[0] != "list"@[0]);
    }
    assert("grid"@ != "list"@) by {
        assert("grid"@[0] != "list"@[0]);
    }
    assert("gridcell"@ != "list"@) by {
        assert("gridcell"@.len() != "list"@.len());
    }
    assert("group"@ != "list"@) by {
        assert("group"@.len() != "list"@.len());
    }
    assert("heading"@ != "list"@) by {
        assert("heading"@.len() != "list"@.len());
    }
    assert("img"@ != "list"@) by {
        assert("img"@.len() != "list"@.len());
    }
    assert("link"@ != "list"@) by {
        assert("link"@[2] != "list"@[2]);
    }
    assert("listbox"@ != "list"@) by {
        assert("listbox"@.len() != "list"@.len());
    }
    assert("listitem"@ != "list"@) by {
        assert("listitem"@.len() != "list"@.len());
    }
    assert("log"@ != "list"@) by {
        assert("log"@.len() != "list"@.len());
    }
    assert("main"@ != "list"@) by {
        assert("main"@[0] != "list"@[0]);
    }
    assert("marquee"@ != "list"@) by {
        assert("marquee"@.len() != "list"@.len());
    }
    assert("math"@ != "list"@) by {
        assert("math"@[0] != "list"@[0]);
    }
    assert("menu"@ != "list"@) by {
        assert("menu"@[0] != "list"@[0]);
    }
    assert("menubar"@ != "list"@) by {
        assert("menubar"@.len() != "list"@.len());
    }
    assert("menuitem"@ != "list"@) by {
        assert("menuitem"@.len() != "list"@.len());
    }
    assert("menuitemcheckbox"@ != "list"@) by {
        assert("menuitemcheckbox"@.len() != "list"@.len());
    }
    assert("menuitemradio"@ != "list"@) by {
        assert("menuitemradio"@.len() != "list"@.len());
    }
    assert("meter"@ != "list"@) by {
        assert("meter"@.len() != "list"@.len());
    }
    assert("navigation"@ != "list"@) by {
        assert("navigation"@.len() != "list"@.len());
    }
    assert("none"@ != "list"@) by {
        assert("none"@[0] != "list"@[0]);
    }
    assert("note"@ != "list"@) by {
        assert("note"@[0] != "list"@[0]);
    }
    assert("option"@ != "list"@) by {
        assert("option"@.len() != "list"@.len());
    }
    assert("presentation"@ != "list"@) by {
        assert("presentation"@.len() != "list"@.len());
    }
    assert("progressbar"@ != "list"@) by {
        assert("progressbar"@.len() != "list"@.len());
    }
    assert("radio"@ != "list"@) by {
        assert("radio"@.len() != "list"@.len());
    }
    assert("radiogroup"@ != "list"@) by {
        assert("radiogroup"@.len() != "list"@.len());
    }
    assert("region"@ != "list"@) by {
        assert("region"@.len() != "list"@.len());
    }
    assert("row"@ != "list"@) by {
        assert("row"@.len() != "list"@.len());
    }
    assert("rowgroup"@ != "list"@) by {
        assert("rowgroup"@.len() != "list"@.len());
    }
    assert("rowheader"@ != "list"@) by {
        assert("rowheader"@.len() != "list"@.len());
    }
    assert("scrollbar"@ != "list"@) by {
        assert("scrollbar"@.len() != "list"@.len());
    }
    assert("search"@ != "list"@) by {
        assert("search"@.len() != "list"@.len());
    }
    assert("searchbox"@ != "list"@) by {
        assert("searchbox"@.len() != "list"@.len());
    }
    assert("separator"@ != "list"@) by {
        assert("separator"@.len() != "list"@.len());
    }
    assert("slider"@ != "list"@) by {
        assert("slider"@.len() != "list"@.len());
    }
    assert("spinbutton"@ != "list"@) by {
        assert("spinbutton"@.len() != "list"@.len());
    }
    assert("status"@ != "list"@) by {
        assert("status"@.len() != "list"@.len());
    }
    assert("switch"@ != "list"@) by {
        assert("switch"@.len() != "list"@.len());
    }
    assert("tab"@ != "list"@) by {
        assert("tab"@.len() != "list"@.len());
    }
    assert("table"@ != "list"@) by {
        assert("table"@.len() != "list"@.len());
    }
    assert("tablist"@ != "list"@) by {
        assert("tablist"@.len() != "list"@.len());
    }
    assert("tabpanel"@ != "list"@) by {
        assert("tabpanel"@.len() != "list"@.len());
    }
    assert("term"@ != "list"@) by {
        assert("term"@[0] != "list"@[0]);
    }
    assert("textbox"@ != "list"@) by {
        assert("textbox"@.len() != "list"@.len());
    }
    assert("timer"@ != "list"@) by {
        assert("timer"@.len() != "list"@.len());
    }
    assert("toolbar"@ != "list"@) by {
        assert("toolbar"@.len() != "list"@.len());
    }
    assert("tooltip"@ != "list"@) by {
        assert("tooltip"@.len() != "list"@.len());
    }
    assert("tree"@ != "list"@) by {
        assert("tree"@[0] != "list"@[0]);
    }
    assert("treegrid"@ != "list"@) by {
        assert("treegrid"@.len() != "list"@.len());
    }
    assert("treeitem"@ != "list"@) by {
        assert("treeitem"@.len() != "list"@.len());
    }
    assert("command"@ != "list"@) by {
        assert("command"@.len() != "list"@.len());
    }
    assert("composite"@ != "list"@) by {
        assert("composite"@.len() != "list"@.len());
    }
    assert("input"@ != "list"@) by {
        assert("input"@.len() != "list"@.len());
    }
    assert("landmark"@ != "list"@) by {
        assert("landmark"@.len() != "list"@.len());
    }
    assert("range"@ != "list"@) by {
        assert("range"@.len() != "list"@.len());
    }
    assert("roletype"@ != "list"@) by {
        assert("roletype"@.len() != "list"@.len());
    }
    assert("section"@ != "list"@) by {
        assert("section"@.len() != "list"@.len());
    }
    assert("sectionhead"@ != "list"@) by {
        assert("sectionhead"@.len() != "list"@.len());
    }
    assert("select"@ != "list"@) by {
        assert("select"@.len() != "list"@.len());
    }
    assert("structure"@ != "list"@) by {
        assert("structure"@.len() != "list"@.len());
    }
    assert("widget"@ != "list"@) by {
        assert("widget"@.len() != "list"@.len());
    }
    assert("window"@ != "list"@) by {
        assert("window"@.len() != "list"@.len());
    }
}

proof fn role_name_unique_listbox(b: Role)
    requires
        b.name_spec() == "listbox"@,
    ensures
        b == Role::ListBox,
{
    reveal_strlit("alert");
    reveal_strlit("alertdialog");
    reveal_strlit("application");
    reveal_strlit("article");
    reveal_strlit("banner");
    reveal_strlit("button");
    reveal_strlit("cell");
    reveal_strlit("checkbox");
    reveal_strlit("columnheader");
    reveal_strlit("combobox");
    reveal_strlit("complementary");
    reveal_strlit("contentinfo");
    reveal_strlit("definition");
    reveal_strlit("dialog");
    reveal_strlit("directory");
    reveal_strlit("document");
    reveal_strlit("feed");
    reveal_strlit("figure");
    reveal_strlit("form");
    reveal_strlit("grid");
    reveal_strlit("gridcell");
    reveal_strlit("group");
    reveal_strlit("heading");
    reveal_strlit("img");
    reveal_strlit("link");
    reveal_strlit("list");
    reveal_strlit("listbox");
    reveal_strlit("listitem");
    reveal_strlit("log");
    reveal_strlit("main");
    reveal_strlit("marquee");
    reveal_strlit("math");
    reveal_strlit("menu");
    reveal_strlit("menubar");
    reveal_strlit("menuitem");
    reveal_strlit("menuitemcheckbox");
    reveal_strlit("menuitemradio");
    reveal_strlit("meter");
    reveal_strlit("navigation");
    reveal_strlit("none");
    reveal_strlit("note");
    reveal_strlit("option");
    reveal_strlit("presentation");
    reveal_strlit("progressbar");
    reveal_strlit("radio");
    reveal_strlit("radiogroup");
    reveal_strlit("region");
    reveal_strlit("row");
    reveal_strlit("rowgroup");
    reveal_strlit("rowheader");
    reveal_strlit("scrollbar");
    reveal_strlit("search");
    reveal_strlit("searchbox");
    reveal_strlit("separator");
    reveal_strlit("slider");
    reveal_strlit("spinbutton");
    reveal_strlit("status");
    reveal_strlit("switch");
    reveal_strlit("tab");
    reveal_strlit("table");
    reveal_strlit("tablist");
    reveal_strlit("tabpanel");
    reveal_strlit("term");
    reveal_strlit("textbox");
    reveal_strlit("timer");
    reveal_strlit("toolbar");
    reveal_strlit("tooltip");
    reveal_strlit("tree");
    reveal_strlit("treegrid");
    reveal_strlit("treeitem");
    reveal_strlit("command");
    reveal_strlit("composite");
    reveal_strlit("input");
    reveal_strlit("landmark");
    reveal_strlit("range");
    reveal_strlit("roletype");
    reveal_strlit("section");
    reveal_strlit("sectionhead");
    reveal_strlit("select");
    reveal_strlit("structure");
    reveal_strlit("widget");
    reveal_strlit("window");
    assert("alert"@ != "listbox"@) by {
        assert("alert"@.len() != "listbox"@.len());
    }
    assert("alertdialog"@ != "listbox"@) by {
        assert("alertdialog"@.len() != "listbox"@.len());
    }
    assert("application"@ != "listbox"@) by {
        assert("application"@.len() != "listbox"@.len());
    }
    assert("article"@ != "listbox"@) by {
        assert("article"@[0] != "listbox"@[0]);
    }
    assert("banner"@ != "listbox"@) by {
        assert("banner"@.len() != "listbox"@.len());
    }
    assert("button"@ != "listbox"@) by {
        assert("button"@.len() != "listbox"@.len());
    }
    assert("cell"@ != "listbox"@) by {
        assert("cell"@.len() != "listbox"@.len());
    }
    assert("checkbox"@ != "listbox"@) by {
        assert("checkbox"@.len() != "listbox"@.len());
    }
    assert("columnheader"@ != "listbox"@) by {
        assert("columnheader"@.len() != "listbox"@.len());
    }
    assert("combobox"@ != "listbox"@) by {
        assert("combobox"@.len() != "listbox"@.len());
    }
    assert("complementary"@ != "listbox"@) by {
        assert("complementary"@.len() != "listbox"@.len());
    }
    assert("contentinfo"@ != "listbox"@) by {
        assert("contentinfo"@.len() != "listbox"@.len());
    }
    assert("definition"@ != "listbox"@) by {
        assert("definition"@.len() != "listbox"@.len());
    }
    assert("dialog"@ != "listbox"@) by {
        assert("dialog"@.len() != "listbox"@.len());
    }
    assert("directory"@ != "listbox"@) by {
        assert("directory"@.len() != "listbox"@.len());
    }
    assert("document"@ != "listbox"@) by {
        assert("document"@.len() != "listbox"@.len());
    }
    assert("feed"@ != "listbox"@) by {
        assert("feed"@.len() != "listbox"@.len());
    }
    assert("figure"@ != "listbox"@) by {
        assert("figure"@.len() != "listbox"@.len());
    }
    assert("form"@ != "listbox"@) by {
        assert("form"@.len() != "listbox"@.len());
    }
    assert("grid"@ != "listbox"@) by {
        assert("grid"@.len() != "listbox"@.len());
    }
    assert("gridcell"@ != "listbox"@) by {
        assert("gridcell"@.len() != "listbox"@.len());
    }
    assert("group"@ != "listbox"@) by {
        assert("group"@.len() != "listbox"@.len());
    }
    assert("heading"@ != "listbox"@) by {
        assert("heading"@[0] != "listbox"@[0]);
    }
    assert("img"@ != "listbox"@) by {
        assert("img"@.len() != "listbox"@.len());
    }
    assert("link"@ != "listbox"@) by {
        assert("link"@.len() != "listbox"@.len());
    }
    assert("list"@ != "listbox"@) by {
        assert("list"@.len() != "listbox"@.len());
    }
    assert("listitem"@ != "listbox"@) by {
        assert("listitem"@.len() != "listbox"@.len());
    }
    assert("log"@ != "listbox"@) by {
        assert("log"@.len() != "listbox"@.len());
    }
    assert("main"@ != "listbox"@) by {
        assert("main"@.len() != "listbox"@.len());
    }
    assert("marquee"@ != "listbox"@) by {
        assert("marquee"@[0] != "listbox"@[0]);
    }
    assert("math"@ != "listbox"@) by {
        assert("math"@.len() != "listbox"@.len());
    }
    assert("menu"@ != "listbox"@) by {
        assert("menu"@.len() != "listbox"@.len());
    }
    assert("menubar"@ != "listbox"@) by {
        assert("menubar"@[0] != "listbox"@[0]);
    }
    assert("menuitem"@ != "listbox"@) by {
        assert("menuitem"@.len() != "listbox"@.len());
    }
    assert("menuitemcheckbox"@ != "listbox"@) by {
        assert("menuitemcheckbox"@.len() != "listbox"@.len());
    }
    assert("menuitemradio"@ != "listbox"@) by {
        assert("menuitemradio"@.len() != "listbox"@.len());
    }
    assert("meter"@ != "listbox"@) by {
        assert("meter"@.len() != "listbox"@.len());
    }
    assert("navigation"@ != "listbox"@) by {
        assert("navigation"@.len() != "listbox"@.len());
    }
    assert("none"@ != "listbox"@) by {
        assert("none"@.len() != "listbox"@.len());
    }
    assert("note"@ != "listbox"@) by {
        assert("note"@.len() != "listbox"@.len());
    }
    assert("option"@ != "listbox"@) by {
        assert("option"@.len() != "listbox"@.len());
    }
    assert("presentation"@ != "listbox"@) by {
        assert("presentation"@.len() != "listbox"@.len());
    }
    assert("progressbar"@ != "listbox"@) by {
        assert("progressbar"@.len() != "listbox"@.len());
    }
    assert("radio"@ != "listbox"@) by {
        assert("radio"@.len() != "listbox"@.len());
    }
    assert("radiogroup"@ != "listbox"@) by {
        assert("radiogroup"@.len() != "listbox"@.len());
    }
    assert("region"@ != "listbox"@) by {
        assert("region"@.len() != "listbox"@.len());
    }
    assert("row"@ != "listbox"@) by {
        assert("row"@.len() != "listbox"@.len());
    }
    assert("rowgroup"@ != "listbox"@) by {
        assert("rowgroup"@.len() != "listbox"@.len());
    }
    assert("rowheader"@ != "listbox"@) by {
        assert("rowheader"@.len() != "listbox"@.len());
    }
    assert("scrollbar"@ != "listbox"@) by {
        assert("scrollbar"@.len() != "listbox"@.len());
    }
    assert("search"@ != "listbox"@) by {
        assert("search"@.len() != "listbox"@.len());
    }
    assert("searchbox"@ != "listbox"@) by {
        assert("searchbox"@.len() != "listbox"@.len());
    }
    assert("separator"@ != "listbox"@) by {
        assert("separator"@.len() != "listbox"@.len());
    }
    assert("slider"@ != "listbox"@) by {
        assert("slider"@.len() != "listbox"@.len());
    }
    assert("spinbutton"@ != "listbox"@) by {
        assert("spinbutton"@.len() != "listbox"@.len());
    }
    assert("status"@ != "listbox"@) by {
        assert("status"@.len() != "listbox"@.len());
    }
    assert("switch"@ != "listbox"@) by {
        assert("switch"@.len() != "listbox"@.len());
    }
    assert("tab"@ != "listbox"@) by {
        assert("tab"@.len() != "listbox"@.len());
    }
    assert("table"@ != "listbox"@) by {
        assert("table"@.len() != "listbox"@.len());
    }
    assert("tablist"@ != "listbox"@) by {
        assert("tablist"@[0] != "listbox"@[0]);
    }
    assert("tabpanel"@ != "listbox"@) by {
        assert("tabpanel"@.len() != "listbox"@.len());
    }
    assert("term"@ != "listbox"@) by {
        assert("term"@.len() != "listbox"@.len());
    }
    assert("textbox"@ != "listbox"@) by {
        assert("textbox"@[0] != "listbox"@[0]);
    }
    assert("timer"@ != "listbox"@) by {
        assert("timer"@.len() != "listbox"@.len());
    }
    assert("toolbar"@ != "listbox"@) by {
        assert("toolbar"@[0] != "listbox"@[0]);
    }
    assert("tooltip"@ != "listbox"@) by {
        assert("tooltip"@[0] != "listbox"@[0]);
    }
    assert("tree"@ != "listbox"@) by {
        assert("tree"@.len() != "listbox"@.len());
    }
    assert("treegrid"@ != "listbox"@) by {
        assert("treegrid"@.len() != "listbox"@.len());
    }
    assert("treeitem"@ != "listbox"@) by {
        assert("treeitem"@.len() != "listbox"@.len());
    }
    assert("command"@ != "listbox"@) by {
        assert("command"@[0] != "listbox"@[0]);
    }
    assert("composite"@ != "listbox"@) by {
        assert("composite"@.len() != "listbox"@.len());
    }
    assert("input"@ != "listbox"@) by {
        assert("input"@.len() != "listbox"@.len());
    }
    assert("landmark"@ != "listbox"@) by {
        assert("landmark"@.len() != "listbox"@.len());
    }
    assert("range"@ != "listbox"@) by {
        assert("range"@.len() != "listbox"@.len());
    }
    assert("roletype"@ != "listbox"@) by {
        assert("roletype"@.len() != "listbox"@.len());
    }
    assert("section"@ != "listbox"@) by {
        assert("section"@[0] != "listbox"@[0]);
    }
    assert("sectionhead"@ != "listbox"@) by {
        assert("sectionhead"@.len() != "listbox"@.len());
    }
    assert("select"@ != "listbox"@) by {
        assert("select"@.len() != "listbox"@.len());
    }
    assert("structure"@ != "listbox"@) by {
        assert("structure"@.len() != "listbox"@.len());
    }
    assert("widget"@ != "listbox"@) by {
        assert("widget"@.len() != "listbox"@.len());
    }
    assert("window"@ != "listbox"@) by {
        assert("window"@.len() != "listbox"@.len());
    }
}

proof fn role_name_unique_listitem(b: Role)
    requires
        b.name_spec() == "listitem"@,
    ensures
        b == Role::ListItem,
{
    reveal_strlit("alert");
    reveal_strlit("alertdialog");
    reveal_strlit("application");
    reveal_strlit("article");
    reveal_strlit("banner");
    reveal_strlit("button");
    reveal_strlit("cell");
    reveal_strlit("checkbox");
    reveal_strlit("columnheader");
    reveal_strlit("combobox");
    reveal_strlit("complementary");
    reveal_strlit("contentinfo");
    reveal_strlit("definition");
    reveal_strlit("dialog");
    reveal_strlit("directory");
    reveal_strlit("document");
    reveal_strlit("feed");
    reveal_strlit("figure");
    reveal_strlit("form");
    reveal_strlit("grid");
    reveal_strlit("gridcell");
    reveal_strlit("group");
    reveal_strlit("heading");
    reveal_strlit("img");
    reveal_strlit("link");
    reveal_strlit("list");
    reveal_strlit("listbox");
    reveal_strlit("listitem");
    reveal_strlit("log");
    reveal_strlit("main");
    reveal_strlit("marquee");
    reveal_strlit("math");
    reveal_strlit("menu");
    reveal_strlit("menubar");
    reveal_strlit("menuitem");
    reveal_strlit("menuitemcheckbox");
    reveal_strlit("menuitemradio");
    reveal_strlit("meter");
    reveal_strlit("navigation");
    reveal_strlit("none");
    reveal_strlit("note");
    reveal_strlit("option");
    reveal_strlit("presentation");
    reveal_strlit("progressbar");
    reveal_strlit("radio");
    reveal_strlit("radiogroup");
    reveal_strlit("region");
    reveal_strlit("row");
    reveal_strlit("rowgroup");
    reveal_strlit("rowheader");
    reveal_strlit("scrollbar");
    reveal_strlit("search");
    reveal_strlit("searchbox");
    reveal_strlit("separator");
    reveal_strlit("slider");
    reveal_strlit("spinbutton");
    reveal_strlit("status");
    reveal_strlit("switch");
    reveal_strlit("tab");
    reveal_strlit("table");
    reveal_strlit("tablist");
    reveal_strlit("tabpanel");
    reveal_strlit("term");
    reveal_strlit("textbox");
    reveal_strlit("timer");
    reveal_strlit("toolbar");
    reveal_strlit("tooltip");
    reveal_strlit("tree");
    reveal_strlit("treegrid");
    reveal_strlit("treeitem");
    reveal_strlit("command");
    reveal_strlit("composite");
    reveal_strlit("input");
    reveal_strlit("landmark");
    reveal_strlit("range");
    reveal_strlit("roletype");
    reveal_strlit("section");
    reveal_strlit("sectionhead");
    reveal_strlit("select");
    reveal_strlit("structure");
    reveal_strlit("widget");
    reveal_strlit("window");
    assert("alert"@ != "listitem"@) by {
        assert("alert"@.len() != "listitem"@.len());
    }
    assert("alertdialog"@ != "listitem"@) by {
        assert("alertdialog"@.len() != "listitem"@.len());
    }
    assert("application"@ != "listitem"@) by {
        assert("application"@.len() != "listitem"@.len());
    }
    assert("article"@ != "listitem"@) by {
        assert("article"@.len() != "listitem"@.len());
    }
    assert("banner"@ != "listitem"@) by {
        assert("banner"@.len() != "listitem"@.len());
    }
    assert("button"@ != "listitem"@) by {
        assert("button"@.len() != "listitem"@.len());
    }
    assert("cell"@ != "listitem"@) by {
        assert("cell"@.len() != "listitem"@.len());
    }
    assert("checkbox"@ != "listitem"@) by {
        assert("checkbox"@[0] != "listitem"@[0]);
    }
    assert("columnheader"@ != "listitem"@) by {
        assert("columnheader"@.len() != "listitem"@.len());
    }
    assert("combobox"@ != "listitem"@) by {
        assert("combobox"@[0] != "listitem"@[0]);
    }
    assert("complementary"@ != "listitem"@) by {
        assert("complementary"@.len() != "listitem"@.len());
    }
    assert("contentinfo"@ != "listitem"@) by {
        assert("contentinfo"@.len() != "listitem"@.len());
    }
    assert("definition"@ != "listitem"@) by {
        assert("definition"@.len() != "listitem"@.len());
    }
    assert("dialog"@ != "listitem"@) by {
        assert("dialog"@.len() != "listitem"@.len());
    }
    assert("directory"@ != "listitem"@) by {
        assert("directory"@.len() != "listitem"@.len());
    }
    assert("document"@ != "listitem"@) by {
        assert("document"@[0] != "listitem"@[0]);
    }
    assert("feed"@ != "listitem"@) by {
        assert("feed"@.len() != "listitem"@.len());
    }
    assert("figure"@ != "listitem"@) by {
        assert("figure"@.len() != "listitem"@.len());
    }
    assert("form"@ != "listitem"@) by {
        assert("form"@.len() != "listitem"@.len());
    }
    assert("grid"@ != "listitem"@) by {
        assert("grid"@.len() != "listitem"@.len());
    }
    assert("gridcell"@ != "listitem"@) by {
        assert("gridcell"@[0] != "listitem"@[0]);
    }
    assert("group"@ != "listitem"@) by {
        assert("group"@.len() != "listitem"@.len());
    }
    assert("heading"@ != "listitem"@) by {
        assert("heading"@.len() != "listitem"@.len());
    }
    assert("img"@ != "listitem"@) by {
        assert("img"@.len() != "listitem"@.len());
    }
    assert("link"@ != "listitem"@) by {
        assert("link"@.len() != "listitem"@.len());
    }
    assert("list"@ != "listitem"@) by {
        assert("list"@.len() != "listitem"@.len());
    }
    assert("listbox"@ != "listitem"@) by {
        assert("listbox"@.len() != "listitem"@.len());
    }
    assert("log"@ != "listitem"@) by {
        assert("log"@.len() != "listitem"@.len());
    }
    assert("main"@ != "listitem"@) by {
        assert("main"@.len() != "listitem"@.len());
    }
    assert("marquee"@ != "listitem"@) by {
        assert("marquee"@.len() != "listitem"@.len());
    }
    assert("math"@ != "listitem"@) by {
        assert("math"@.len() != "listitem"@.len());
    }
    assert("menu"@ != "listitem"@) by {
        assert("menu"@.len() != "listitem"@.len());
    }
    assert("menubar"@ != "listitem"@) by {
        assert("menubar"@.len() != "listitem"@.len());
    }
    assert("menuitem"@ != "listitem"@) by {
        assert("menuitem"@[0] != "listitem"@[0]);
    }
    assert("menuitemcheckbox"@ != "listitem"@) by {
        assert("menuitemcheckbox"@.len() != "listitem"@.len());
    }
    assert("menuitemradio"@ != "listitem"@) by {
        assert("menuitemradio"@.len() != "listitem"@.len());
    }
    assert("meter"@ != "listitem"@) by {
        assert("meter"@.len() != "listitem"@.len());
    }
    assert("navigation"@ != "listitem"@) by {
        assert("navigation"@.len() != "listitem"@.len());
    }
    assert("none"@ != "listitem"@) by {
        assert("none"@.len() != "listitem"@.len());
    }
    assert("note"@ != "listitem"@) by {
        assert("note"@.len() != "listitem"@.len());
    }
    assert("option"@ != "listitem"@) by {
        assert("option"@.len() != "listitem"@.len());
    }
    assert("presentation"@ != "listitem"@) by {
        assert("presentation"@.len() != "listitem"@.len());
    }
    assert("progressbar"@ != "listitem"@) by {
        assert("progressbar"@.len() != "listitem"@.len());
    }
    assert("radio"@ != "listitem"@) by {
        assert("radio"@.len() != "listitem"@.len());
    }
    assert("radiogroup"@ != "listitem"@) by {
        assert("radiogroup"@.len() != "listitem"@.len());
    }
    assert("region"@ != "listitem"@) by {
        assert("region"@.len() != "listitem"@.len());
    }
    assert("row"@ != "listitem"@) by {
        assert("row"@.len() != "listitem"@.len());
    }
    assert("rowgroup"@ != "listitem"@) by {
        assert("rowgroup"@[0] != "listitem"@[0]);
    }
    assert("rowheader"@ != "listitem"@) by {
        assert("rowheader"@.len() != "listitem"@.len());
    }
    assert("scrollbar"@ != "listitem"@) by {
        assert("scrollbar"@.len() != "listitem"@.len());
    }
    assert("search"@ != "listitem"@) by {
        assert("search"@.len() != "listitem"@.len());
    }
    assert("searchbox"@ != "listitem"@) by {
        assert("searchbox"@.len() != "listitem"@.len());
    }
    assert("separator"@ != "listitem"@) by {
        assert("separator"@.len() != "listitem"@.len());
    }
    assert("slider"@ != "listitem"@) by {
        assert("slider"@.len() != "listitem"@.len());
    }
    assert("spinbutton"@ != "listitem"@) by {
        assert("spinbutton"@.len() != "listitem"@.len());
    }
    assert("status"@ != "listitem"@) by {
        assert("status"@.len() != "listitem"@.len());
    }
    assert("switch"@ != "listitem"@) by {
        assert("switch"@.len() != "listitem"@.len());
    }
    assert("tab"@ != "listitem"@) by {
        assert("tab"@.len() != "listitem"@.len());
    }
    assert("table"@ != "listitem"@) by {
        assert("table"@.len() != "listitem"@.len());
    }
    assert("tablist"@ != "listitem"@) by {
        assert("tablist"@.len() != "listitem"@.len());
    }
    assert("tabpanel"@ != "listitem"@) by {
        assert("tabpanel"@[0] != "listitem"@[0]);
    }
    assert("term"@ != "listitem"@) by {
        assert("term"@.len() != "listitem"@.len());
    }
    assert("textbox"@ != "listitem"@) by {
        assert("textbox"@.len() != "listitem"@.len());
    }
    assert("timer"@ != "listitem"@) by {
        assert("timer"@.len() != "listitem"@.len());
    }
    assert("toolbar"@ != "listitem"@) by {
        assert("toolbar"@.len() != "listitem"@.len());
    }
    assert("tooltip"@ != "listitem"@) by {
        assert("tooltip"@.len() != "listitem"@.len());
    }
    assert("tree"@ != "listitem"@) by {
        assert("tree"@.len() != "listitem"@.len());
    }
    assert("treegrid"@ != "listitem"@) by {
        assert("treegrid"@[0] != "listitem"@[0]);
    }
    assert("treeitem"@ != "listitem"@) by {
        assert("treeitem"@[0] != "listitem"@[0]);
    }
    assert("command"@ != "listitem"@) by {
        assert("command"@.len() != "listitem"@.len());
    }
    assert("composite"@ != "listitem"@) by {
        assert("composite"@.len() != "listitem"@.len());
    }
    assert("input"@ != "listitem"@) by {
        assert("input"@.len() != "listitem"@.len());
    }
    assert("landmark"@ != "listitem"@) by {
        assert("landmark"@[1] != "listitem"@[1]);
    }
    assert("range"@ != "listitem"@) by {
        assert("range"@.len() != "listitem"@.len());
    }
    assert("roletype"@ != "listitem"@) by {
        assert("roletype"@[0] != "listitem"@[0]);
    }
    assert("section"@ != "listitem"@) by {
        assert("section"@.len() != "listitem"@.len());
    }
    assert("sectionhead"@ != "listitem"@) by {
        assert("sectionhead"@.len() != "listitem"@.len());
    }
    assert("select"@ != "listitem"@) by {
        assert("select"@.len() != "listitem"@.len());
    }
    assert("structure"@ != "listitem"@) by {
        assert("structure"@.len() != "listitem"@.len());
    }
    assert("widget"@ != "listitem"@) by {
        assert("widget"@.len() != "listitem"@.len());
    }
    assert("window"@ != "listitem"@) by {
        assert("window"@.len() != "listitem"@.len());
    }
}

proof fn role_name_unique_log(b: Role)
    requires
        b.name_spec() == "log"@,
    ensures
        b == Role::Log,
{
    reveal_strlit("alert");
    reveal_strlit("alertdialog");
    reveal_strlit("application");
    reveal_strlit("article");
    reveal_strlit("banner");
    reveal_strlit("button");
    reveal_strlit("cell");
    reveal_strlit("checkbox");
    reveal_strlit("columnheader");
    reveal_strlit("combobox");
    reveal_strlit("complementary");
    reveal_strlit("contentinfo");
    reveal_strlit("definition");
    reveal_strlit("dialog");
    reveal_strlit("directory");
    reveal_strlit("document");
    reveal_strlit("feed");
    reveal_strlit("figure");
    reveal_strlit("form");
    reveal_strlit("grid");
    reveal_strlit("gridcell");
    reveal_strlit("group");
    reveal_strlit("heading");
    reveal_strlit("img");
    reveal_strlit("link");
    reveal_strlit("list");
    reveal_strlit("listbox");
    reveal_strlit("listitem");
    reveal_strlit("log");
    reveal_strlit("main");
    reveal_strlit("marquee");
    reveal_strlit("math");
    reveal_strlit("menu");
    reveal_strlit("menubar");
    reveal_strlit("menuitem");
    reveal_strlit("menuitemcheckbox");
    reveal_strlit("menuitemradio");
    reveal_strlit("meter");
    reveal_strlit("navigation");
    reveal_strlit("none");
    reveal_strlit("note");
    reveal_strlit("option");
    reveal_strlit("presentation");
    reveal_strlit("progressbar");
    reveal_strlit("radio");
    reveal_strlit("radiogroup");
    reveal_strlit("region");
    reveal_strlit("row");
    reveal_strlit("rowgroup");
    reveal_strlit("rowheader");
    reveal_strlit("scrollbar");
    reveal_strlit("search");
    reveal_strlit("searchbox");
    reveal_strlit("separator");
    reveal_strlit("slider");
    reveal_strlit("spinbutton");
    reveal_strlit("status");
    reveal_strlit("switch");
    reveal_strlit("tab");
    reveal_strlit("table");
    reveal_strlit("tablist");
    reveal_strlit("tabpanel");
    reveal_strlit("term");
    reveal_strlit("textbox");
    reveal_strlit("timer");
    reveal_strlit("toolbar");
    reveal_strlit("tooltip");
    reveal_strlit("tree");
    reveal_strlit("treegrid");
    reveal_strlit("treeitem");
    reveal_strlit("command");
    reveal_strlit("composite");
    reveal_strlit("input");
    reveal_strlit("landmark");
    reveal_strlit("range");
    reveal_strlit("roletype");
    reveal_strlit("section");
    reveal_strlit("sectionhead");
    reveal_strlit("select");
    reveal_strlit("structure");
    reveal_strlit("widget");
    reveal_strlit("window");
    assert("alert"@ != "log"@) by {
        assert("alert"@.len() != "log"@.len());
    }
    assert("alertdialog"@ != "log"@) by {
        assert("alertdialog"@.len() != "log"@.len());
    }
    assert("application"@ != "log"@) by {
        assert("application"@.len() != "log"@.len());
    }
    assert("article"@ != "log"@) by {
        assert("article"@.len() != "log"@.len());
    }
    assert("banner"@ != "log"@) by {
        assert("banner"@.len() != "log"@.len());
    }
    assert("button"@ != "log"@) by {
        assert("button"@.len() != "log"@.len());
    }
    assert("cell"@ != "log"@) by {
        assert("cell"@.len() != "log"@.len());
    }
    assert("checkbox"@ != "log"@) by {
        assert("checkbox"@.len() != "log"@.len());
    }
    assert("columnheader"@ != "log"@) by {
        assert("columnheader"@.len() != "log"@.len());
    }
    assert("combobox"@ != "log"@) by {
        assert("combobox"@.len() != "log"@.len());
    }
    assert("complementary"@ != "log"@) by {
        assert("complementary"@.len() != "log"@.len());
    }
    assert("contentinfo"@ != "log"@) by {
        assert("contentinfo"@.len() != "log"@.len());
    }
    assert("definition"@ != "log"@) by {
        assert("definition"@.len() != "log"@.len());
    }
    assert("dialog"@ != "log"@) by {
        assert("dialog"@.len() != "log"@.len());
    }
    assert("directory"@ != "log"@) by {
        assert("directory"@.len() != "log"@.len());
    }
    assert("document"@ != "log"@) by {
        assert("document"@.len() != "log"@.len());
    }
    assert("feed"@ != "log"@) by {
        assert("feed"@.len() != "log"@.len());
    }
    assert("figure"@ != "log"@) by {
        assert("figure"@.len() != "log"@.len());
    }
    assert("form"@ != "log"@) by {
        assert("form"@.len() != "log"@.len());
    }
    assert("grid"@ != "log"@) by {
        assert("grid"@.len() != "log"@.len());
    }
    assert("gridcell"@ != "log"@) by {
        assert("gridcell"@.len() != "log"@.len());
    }
    assert("group"@ != "log"@) by {
        assert("group"@.len() != "log"@.len());
    }
    assert("heading"@ != "log"@) by {
        assert("heading"@.len() != "log"@.len());
    }
    assert("img"@ != "log"@) by {
        assert("img"@[0] != "log"@[0]);
    }
    assert("link"@ != "log"@) by {
        assert("link"@.len() != "log"@.len());
    }
    assert("list"@ != "log"@) by {
        assert("list"@.len() != "log"@.len());
    }
    assert("listbox"@ != "log"@) by {
        assert("listbox"@.len() != "log"@.len());
    }
    assert("listitem"@ != "log"@) by {
        assert("listitem"@.len() != "log"@.len());
    }
    assert("main"@ != "log"@) by {
        assert("main"@.len() != "log"@.len());
    }
    assert("marquee"@ != "log"@) by {
        assert("marquee"@.len() != "log"@.len());
    }
    assert("math"@ != "log"@) by {
        assert("math"@.len() != "log"@.len());
    }
    assert("menu"@ != "log"@) by {
        assert("menu"@.len() != "log"@.len());
    }
    assert("menubar"@ != "log"@) by {
        assert("menubar"@.len() != "log"@.len());
    }
    assert("menuitem"@ != "log"@) by {
        assert("menuitem"@.len() != "log"@.len());
    }
    assert("menuitemcheckbox"@ != "log"@) by {
        assert("menuitemcheckbox"@.len() != "log"@.len());
    }
    assert("menuitemradio"@ != "log"@) by {
        assert("menuitemradio"@.len() != "log"@.len());
    }
    assert("meter"@ != "log"@) by {
        assert("meter"@.len() != "log"@.len());
    }
    assert("navigation"@ != "log"@) by {
        assert("navigation"@.len() != "log"@.len());
    }
    assert("none"@ != "log"@) by {
        assert("none"@.len() != "log"@.len());
    }
    assert("note"@ != "log"@) by {
        assert("note"@.len() != "log"@.len());
    }
    assert("option"@ != "log"@) by {
        assert("option"@.len() != "log"@.len());
    }
    assert("presentation"@ != "log"@) by {
        assert("presentation"@.len() != "log"@.len());
    }
    assert("progressbar"@ != "log"@) by {
        assert("progressbar"@.len() != "log"@.len());
    }
    assert("radio"@ != "log"@) by {
        assert("radio"@.len() != "log"@.len());
    }
    assert("radiogroup"@ != "log"@) by {
        assert("radiogroup"@.len() != "log"@.len());
    }
    assert("region"@ != "log"@) by {
        assert("region"@.len() != "log"@.len());
    }
    assert("row"@ != "log"@) by {
        assert("row"@[0] != "log"@[0]);
    }
    assert("rowgroup"@ != "log"@) by {
        assert("rowgroup"@.len() != "log"@.len());
    }
    assert("rowheader"@ != "log"@) by {
        assert("rowheader"@.len() != "log"@.len());
    }
    assert("scrollbar"@ != "log"@) by {
        assert("scrollbar"@.len() != "log"@.len());
    }
    assert("search"@ != "log"@) by {
        assert("search"@.len() != "log"@.len());
    }
    assert("searchbox"@ != "log"@) by {
        assert("searchbox"@.len() != "log"@.len());
    }
    assert("separator"@ != "log"@) by {
        assert("separator"@.len() != "log"@.len());
    }
    assert("slider"@ != "log"@) by {
        assert("slider"@.len() != "log"@.len());
    }
    assert("spinbutton"@ != "log"@) by {
        assert("spinbutton"@.len() != "log"@.len());
    }
    assert("status"@ != "log"@) by {
        assert("status"@.len() != "log"@.len());
    }
    assert("switch"@ != "log"@) by {
        assert("switch"@.len() != "log"@.len());
    }
    assert("tab"@ != "log"@) by {
        assert("tab"@[0] != "log"@[0]);
    }
    assert("table"@ != "log"@) by {
        assert("table"@.len() != "log"@.len());
    }
    assert("tablist"@ != "log"@) by {
        assert("tablist"@.len() != "log"@.len());
    }
    assert("tabpanel"@ != "log"@) by {
        assert("tabpanel"@.len() != "log"@.len());
    }
    assert("term"@ != "log"@) by {
        assert("term"@.len() != "log"@.len());
    }
    assert("textbox"@ != "log"@) by {
        assert("textbox"@.len() != "log"@.len());
    }
    assert("timer"@ != "log"@) by {
        assert("timer"@.len() != "log"@.len());
    }
    assert("toolbar"@ != "log"@) by {
        assert("toolbar"@.len() != "log"@.len());
    }
    assert("tooltip"@ != "log"@) by {
        assert("tooltip"@.len() != "log"@.len());
    }
    assert("tree"@ != "log"@) by {
        assert("tree"@.len() != "log"@.len());
    }
    assert("treegrid"@ != "log"@) by {
        assert("treegrid"@.len() != "log"@.len());
    }
    assert("treeitem"@ != "log"@) by {
        assert("treeitem"@.len() != "log"@.len());
    }
    assert("command"@ != "log"@) by {
        assert("command"@.len() != "log"@.len());
    }
    assert("composite"@ != "log"@) by {
        assert("composite"@.len() != "log"@.len());
    }
    assert("input"@ != "log"@) by {
        assert("input"@.len() != "log"@.len());
    }
    assert("landmark"@ != "log"@) by {
        assert("landmark"@.len() != "log"@.len());
    }
    assert("range"@ != "log"@) by {
        assert("range"@.len() != "log"@.len());
    }
    assert("roletype"@ != "log"@) by {
        assert("roletype"@.len() != "log"@.len());
    }
    assert("section"@ != "log"@) by {
        assert("section"@.len() != "log"@.len());
    }
    assert("sectionhead"@ != "log"@) by {
        assert("sectionhead"@.len() != "log"@.len());
    }
    assert("select"@ != "log"@) by {
        assert("select"@.len() != "log"@.len());
    }
    assert("structure"@ != "log"@) by {
        assert("structure"@.len() != "log"@.len());
    }
    assert("widget"@ != "log"@) by {
        assert("widget"@.len() != "log"@.len());
    }
    assert("window"@ != "log"@) by {
        assert("window"@.len() != "log"@.len());
    }
}

proof fn role_name_unique_main(b: Role)
    requires
        b.name_spec() == "main"@,
    ensures
        b == Role::Main,
{
    reveal_strlit("alert");
    reveal_strlit("alertdialog");
    reveal_strlit("application");
    reveal_strlit("article");
    reveal_strlit("banner");
    reveal_strlit("button");
    reveal_strlit("cell");
    reveal_strlit("checkbox");
    reveal_strlit("columnheader");
    reveal_strlit("combobox");
    reveal_strlit("complementary");
    reveal_strlit("contentinfo");
    reveal_strlit("definition");
    reveal_strlit("dialog");
    reveal_strlit("directory");
    reveal_strlit("document");
    reveal_strlit("feed");
    reveal_strlit("figure");
    reveal_strlit("form");
    reveal_strlit("grid");
    reveal_strlit("gridcell");
    reveal_strlit("group");
    reveal_strlit("heading");
    reveal_strlit("img");
    reveal_strlit("link");
    reveal_strlit("list");
    reveal_strlit("listbox");
    reveal_strlit("listitem");
    reveal_strlit("log");
    reveal_strlit("main");
    reveal_strlit("marquee");
    reveal_strlit("math");
    reveal_strlit("menu");
    reveal_strlit("menubar");
    reveal_strlit("menuitem");
    reveal_strlit("menuitemcheckbox");
    reveal_strlit("menuitemradio");
    reveal_strlit("meter");
    reveal_strlit("navigation");
    reveal_strlit("none");
    reveal_strlit("note");
    reveal_strlit("option");
    reveal_strlit("presentation");
    reveal_strlit("progressbar");
    reveal_strlit("radio");
    reveal_strlit("radiogroup");
    reveal_strlit("region");
    reveal_strlit("row");
    reveal_strlit("rowgroup");
    reveal_strlit("rowheader");
    reveal_strlit("scrollbar");
    reveal_strlit("search");
    reveal_strlit("searchbox");
    reveal_strlit("separator");
    reveal_strlit("slider");
    reveal_strlit("spinbutton");
    reveal_strlit("status");
    reveal_strlit("switch");
    reveal_strlit("tab");
    reveal_strlit("table");
    reveal_strlit("tablist");
    reveal_strlit("tabpanel");
    reveal_strlit("term");
    reveal_strlit("textbox");
    reveal_strlit("timer");
    reveal_strlit("toolbar");
    reveal_strlit("tooltip");
    reveal_strlit("tree");
    reveal_strlit("treegrid");
    reveal_strlit("treeitem");
    reveal_strlit("command");
    reveal_strlit("composite");
    reveal_strlit("input");
    reveal_strlit("landmark");
    reveal_strlit("range");
    reveal_strlit("roletype");
    reveal_strlit("section");
    reveal_strlit("sectionhead");
    reveal_strlit("select");
    reveal_strlit("structure");
    reveal_strlit("widget");
    reveal_strlit("window");
    assert("alert"@ != "main"@) by {
        assert("alert"@.len() != "main"@.len());
    }
    assert("alertdialog"@ != "main"@) by {
        assert("alertdialog"@.len() != "main"@.len());
    }
    assert("application"@ != "main"@) by {
        assert("application"@.len() != "main"@.len());
    }
    assert("article"@ != "main"@) by {
        assert("article"@.len() != "main"@.len());
    }
    assert("banner"@ != "main"@) by {
        assert("banner"@.len() != "main"@.len());
    }
    assert("button"@ != "main"@) by {
        assert("button"@.len() != "main"@.len());
    }
    assert("cell"@ != "main"@) by {
        assert("cell"@[0] != "main"@[0]);
    }
    assert("checkbox"@ != "main"@) by {
        assert("checkbox"@.len() != "main"@.len());
    }
    assert("columnheader"@ != "main"@) by {
        assert("columnheader"@.len() != "main"@.len());
    }
    assert("combobox"@ != "main"@) by {
        assert("combobox"@.len() != "main"@.len());
    }
    assert("complementary"@ != "main"@) by {
        assert("complementary"@.len() != "main"@.len());
    }
    assert("contentinfo"@ != "main"@) by {
        assert("contentinfo"@.len() != "main"@.len());
    }
    assert("definition"@ != "main"@) by {
        assert("definition"@.len() != "main"@.len());
    }
    assert("dialog"@ != "main"@) by {
        assert("dialog"@.len() != "main"@.len());
    }
    assert("directory"@ != "main"@) by {
        assert("directory"@.len() != "main"@.len());
    }
    assert("document"@ != "main"@) by {
        assert("document"@.len() != "main"@.len());
    }
    assert("feed"@ != "main"@) by {
        assert("feed"@[0] != "main"@[0]);
    }
    assert("figure"@ != "main"@) by {
        assert("figure"@.len() != "main"@.len());
    }
    assert("form"@ != "main"@) by {
        assert("form"@[0] != "main"@[0]);
    }
    assert("grid"@ != "main"@) by {
        assert("grid"@[0] != "main"@[0]);
    }
    assert("gridcell"@ != "main"@) by {
        assert("gridcell"@.len() != "main"@.len());
    }
    assert("group"@ != "main"@) by {
        assert("group"@.len() != "main"@.len());
    }
    assert("heading"@ != "main"@) by {
        assert("heading"@.len() != "main"@.len());
    }
    assert("img"@ != "main"@) by {
        assert("img"@.len() != "main"@.len());
    }
    assert("link"@ != "main"@) by {
        assert("link"@[0] != "main"@[0]);
    }
    assert("list"@ != "main"@) by {
        assert("list"@[0] != "main"@[0]);
    }
    assert("listbox"@ != "main"@) by {
        assert("listbox"@.len() != "main"@.len());
    }
    assert("listitem"@ != "main"@) by {
        assert("listitem"@.len() != "main"@.len());
    }
    assert("log"@ != "main"@) by {
        assert("log"@.len() != "main"@.len());
    }
    assert("marquee"@ != "main"@) by {
        assert("marquee"@.len() != "main"@.len());
    }
    assert("math"@ != "main"@) by {
        assert("math"@[2] != "main"@[2]);
    }
    assert("menu"@ != "main"@) by {
        assert("menu"@[1] != "main"@[1]);
    }
    assert("menubar"@ != "main"@) by {
        assert("menubar"@.len() != "main"@.len());
    }
    assert("menuitem"@ != "main"@) by {
        assert("menuitem"@.len() != "main"@.len());
    }
    assert("menuitemcheckbox"@ != "main"@) by {
        assert("menuitemcheckbox"@.len() != "main"@.len());
    }
    assert("menuitemradio"@ != "main"@) by {
        assert("menuitemradio"@.len() != "main"@.len());
    }
    assert("meter"@ != "main"@) by {
        assert("meter"@.len() != "main"@.len());
    }
    assert("navigation"@ != "main"@) by {
        assert("navigation"@.len() != "main"@.len());
    }
    assert("none"@ != "main"@) by {
        assert("none"@[0] != "main"@[0]);
    }
    assert("note"@ != "main"@) by {
        assert("note"@[0] != "main"@[0]);
    }
    assert("option"@ != "main"@) by {
        assert("option"@.len() != "main"@.len());
    }
    assert("presentation"@ != "main"@) by {
        assert("presentation"@.len() != "main"@.len());
    }
    assert("progressbar"@ != "main"@) by {
        assert("progressbar"@.len() != "main"@.len());
    }
    assert("radio"@ != "main"@) by {
        assert("radio"@.len() != "main"@.len());
    }
    assert("radiogroup"@ != "main"@) by {
        assert("radiogroup"@.len() != "main"@.len());
    }
    assert("region"@ != "main"@) by {
        assert("region"@.len() != "main"@.len());
    }
    assert("row"@ != "main"@) by {
        assert("row"@.len() != "main"@.len());
    }
    assert("rowgroup"@ != "main"@) by {
        assert("rowgroup"@.len() != "main"@.len());
    }
    assert("rowheader"@ != "main"@) by {
        assert("rowheader"@.len() != "main"@.len());
    }
    assert("scrollbar"@ != "main"@) by {
        assert("scrollbar"@.len() != "main"@.len());
    }
    assert("search"@ != "main"@) by {
        assert("search"@.len() != "main"@.len());
    }
    assert("searchbox"@ != "main"@) by {
        assert("searchbox"@.len() != "main"@.len());
    }
    assert("separator"@ != "main"@) by {
        assert("separator"@.len() != "main"@.len());
    }
    assert("slider"@ != "main"@) by {
        assert("slider"@.len() != "main"@.len());
    }
    assert("spinbutton"@ != "main"@) by {
        assert("spinbutton"@.len() != "main"@.len());
    }
    assert("status"@ != "main"@) by {
        assert("status"@.len() != "main"@.len());
    }
    assert("switch"@ != "main"@) by {
        assert("switch"@.len() != "main"@.len());
    }
    assert("tab"@ != "main"@) by {
        assert("tab"@.len() != "main"@.len());
    }
    assert("table"@ != "main"@) by {
        assert("table"@.len() != "main"@.len());
    }
    assert("tablist"@ != "main"@) by {
        assert("tablist"@.len() != "main"@.len());
    }
    assert("tabpanel"@ != "main"@) by {
        assert("tabpanel"@.len() != "main"@.len());
    }
    assert("term"@ != "main"@) by {
        assert("term"@[0] != "main"@[0]);
    }
    assert("textbox"@ != "main"@) by {
        assert("textbox"@.len() != "main"@.len());
    }
    assert("timer"@ != "main"@) by {
        assert("timer"@.len() != "main"@.len());
    }
    assert("toolbar"@ != "main"@) by {
        assert("toolbar"@.len() != "main"@.len());
    }
    assert("tooltip"@ != "main"@) by {
        assert("tooltip"@.len() != "main"@.len());
    }
    assert("tree"@ != "main"@) by {
        assert("tree"@[0] != "main"@[0]);
    }
    assert("treegrid"@ != "main"@) by {
        assert("treegrid"@.len() != "main"@.len());
    }
    assert("treeitem"@ != "main"@) by {
        assert("treeitem"@.len() != "main"@.len());
    }
    assert("command"@ != "main"@) by {
        assert("command"@.len() != "main"@.len());
    }
    assert("composite"@ != "main"@) by {
        assert("composite"@.len() != "main"@.len());
    }
    assert("input"@ != "main"@) by {
        assert("input"@.len() != "main"@.len());
    }
    assert("landmark"@ != "main"@) by {
        assert("landmark"@.len() != "main"@.len());
    }
    assert("range"@ != "main"@) by {
        assert("range"@.len() != "main"@.len());
    }
    assert("roletype"@ != "main"@) by {
        assert("roletype"@.len() != "main"@.len());
    }
    assert("section"@ != "main"@) by {
        assert("section"@.len() != "main"@.len());
    }
    assert("sectionhead"@ != "main"@) by {
        assert("sectionhead"@.len() != "main"@.len());
    }
    assert("select"@ != "main"@) by {
        assert("select"@.len() != "main"@.len());
    }
    assert("structure"@ != "main"@) by {
        assert("structure"@.len() != "main"@.len());
    }
    assert("widget"@ != "main"@) by {
        assert("widget"@.len() != "main"@.len());
    }
    assert("window"@ != "main"@) by {
        assert("window"@.len() != "main"@.len());
    }
}

proof fn role_name_unique_marquee(b: Role)
    requires
        b.name_spec() == "marquee"@,
    ensures
        b == Role::Marquee,
{
    reveal_strlit("alert");
    reveal_strlit("alertdialog");
    reveal_strlit("application");
    reveal_strlit("article");
    reveal_strlit("banner");
    reveal_strlit("button");
    reveal_strlit("cell");
    reveal_strlit("checkbox");
    reveal_strlit("columnheader");
    reveal_strlit("combobox");
    reveal_strlit("complementary");
    reveal_strlit("contentinfo");
    reveal_strlit("definition");
    reveal_strlit("dialog");
    reveal_strlit("directory");
    reveal_strlit("document");
    reveal_strlit("feed");
    reveal_strlit("figure");
    reveal_strlit("form");
    reveal_strlit("grid");
    reveal_strlit("gridcell");
    reveal_strlit("group");
    reveal_strlit("heading");
    reveal_strlit("img");
    reveal_strlit("link");
    reveal_strlit("list");
    reveal_strlit("listbox");
    reveal_strlit("listitem");
    reveal_strlit("log");
    reveal_strlit("main");
    reveal_strlit("marquee");
    reveal_strlit("math");
    reveal_strlit("menu");
    reveal_strlit("menubar");
    reveal_strlit("menuitem");
    reveal_strlit("menuitemcheckbox");
    reveal_strlit("menuitemradio");
    reveal_strlit("meter");
    reveal_strlit("navigation");
    reveal_strlit("none");
    reveal_strlit("note");
    reveal_strlit("option");
    reveal_strlit("presentation");
    reveal_strlit("progressbar");
    reveal_strlit("radio");
    reveal_strlit("radiogroup");
    reveal_strlit("region");
    reveal_strlit("row");
    reveal_strlit("rowgroup");
    reveal_strlit("rowheader");
    reveal_strlit("scrollbar");
    reveal_strlit("search");
    reveal_strlit("searchbox");
    reveal_strlit("separator");
    reveal_strlit("slider");
    reveal_strlit("spinbutton");
    reveal_strlit("status");
    reveal_strlit("switch");
    reveal_strlit("tab");
    reveal_strlit("table");
    reveal_strlit("tablist");
    reveal_strlit("tabpanel");
    reveal_strlit("term");
    reveal_strlit("textbox");
    reveal_strlit("timer");
    reveal_strlit("toolbar");
    reveal_strlit("tooltip");
    reveal_strlit("tree");
    reveal_strlit("treegrid");
    reveal_strlit("treeitem");
    reveal_strlit("command");
    reveal_strlit("composite");
    reveal_strlit("input");
    reveal_strlit("landmark");
    reveal_strlit("range");
    reveal_strlit("roletype");
    reveal_strlit("section");
    reveal_strlit("sectionhead");
    reveal_strlit("select");
    reveal_strlit("structure");
    reveal_strlit("widget");
    reveal_strlit("window");
    assert("alert"@ != "marquee"@) by {
        assert("alert"@.len() != "marquee"@.len());
    }
    assert("alertdialog"@ != "marquee"@) by {
        assert("alertdialog"@.len() != "marquee"@.len());
    }
    assert("application"@ != "marquee"@) by {
        assert("application"@.len() != "marquee"@.len());
    }
    assert("article"@ != "marquee"@) by {
        assert("article"@[0] != "marquee"@[0]);
    }
    assert("banner"@ != "marquee"@) by {
        assert("banner"@.len() != "marquee"@.len());
    }
    assert("button"@ != "marquee"@) by {
        assert("button"@.len() != "marquee"@.len());
    }
    assert("cell"@ != "marquee"@) by {
        assert("cell"@.len() != "marquee"@.len());
    }
    assert("checkbox"@ != "marquee"@) by {
        assert("checkbox"@.len() != "marquee"@.len());
    }
    assert("columnheader"@ != "marquee"@) by {
        assert("columnheader"@.len() != "marquee"@.len());
    }
    assert("combobox"@ != "marquee"@) by {
        assert("combobox"@.len() != "marquee"@.len());
    }
    assert("complementary"@ != "marquee"@) by {
        assert("complementary"@.len() != "marquee"@.len());
    }
    assert("contentinfo"@ != "marquee"@) by {
        assert("contentinfo"@.len() != "marquee"@.len());
    }
    assert("definition"@ != "marquee"@) by {
        assert("definition"@.len() != "marquee"@.len());
    }
    assert("dialog"@ != "marquee"@) by {
        assert("dialog"@.len() != "marquee"@.len());
    }
    assert("directory"@ != "marquee"@) by {
        assert("directory"@.len() != "marquee"@.len());
    }
    assert("document"@ != "marquee"@) by {
        assert("document"@.len() != "marquee"@.len());
    }
    assert("feed"@ != "marquee"@) by {
        assert("feed"@.len() != "marquee"@.len());
    }
    assert("figure"@ != "marquee"@) by {
        assert("figure"@.len() != "marquee"@.len());
    }
    assert("form"@ != "marquee"@) by {
        assert("form"@.len() != "marquee"@.len());
    }
    assert("grid"@ != "marquee"@) by {
        assert("grid"@.len() != "marquee"@.len());
    }
    assert("gridcell"@ != "marquee"@) by {
        assert("gridcell"@.len() != "marquee"@.len());
    }
    assert("group"@ != "marquee"@) by {
        assert("group"@.len() != "marquee"@.len());
    }
    assert("heading"@ != "marquee"@) by {
        assert("heading"@[0] != "marquee"@[0]);
    }
    assert("img"@ != "marquee"@) by {
        assert("img"@.len() != "marquee"@.len());
    }
    assert("link"@ != "marquee"@) by {
        assert("link"@.len() != "marquee"@.len());
    }
    assert("list"@ != "marquee"@) by {
        assert("list"@.len() != "marquee"@.len());
    }
    assert("listbox"@ != "marquee"@) by {
        assert("listbox"@[0] != "marquee"@[0]);
    }
    assert("listitem"@ != "marquee"@) by {
        assert("listitem"@.len() != "marquee"@.len());
    }
    assert("log"@ != "marquee"@) by {
        assert("log"@.len() != "marquee"@.len());
    }
    assert("main"@ != "marquee"@) by {
        assert("main"@.len() != "marquee"@.len());
    }
    assert("math"@ != "marquee"@) by {
        assert("math"@.len() != "marquee"@.len());
    }
    assert("menu"@ != "marquee"@) by {
        assert("menu"@.len() != "marquee"@.len());
    }
    assert("menubar"@ != "marquee"@) by {
        assert("menubar"@[1] != "marquee"@[1]);
    }
    assert("menuitem"@ != "marquee"@) by {
        assert("menuitem"@.len() != "marquee"@.len());
    }
    assert("menuitemcheckbox"@ != "marquee"@) by {
        assert("menuitemcheckbox"@.len() != "marquee"@.len());
    }
    assert("menuitemradio"@ != "marquee"@) by {
        assert("menuitemradio"@.len() != "marquee"@.len());
    }
    assert("meter"@ != "marquee"@) by {
        assert("meter"@.len() != "marquee"@.len());
    }
    assert("navigation"@ != "marquee"@) by {
        assert("navigation"@.len() != "marquee"@.len());
    }
    assert("none"@ != "marquee"@) by {
        assert("none"@.len() != "marquee"@.len());
    }
    assert("note"@ != "marquee"@) by {
        assert("note"@.len() != "marquee"@.len());
    }
    assert("option"@ != "marquee"@) by {
        assert("option"@.len() != "marquee"@.len());
    }
    assert("presentation"@ != "marquee"@) by {
        assert("presentation"@.len() != "marquee"@.len());
    }
    assert("progressbar"@ != "marquee"@) by {
        assert("progressbar"@.len() != "marquee"@.len());
    }
    assert("radio"@ != "marquee"@) by {
        assert("radio"@.len() != "marquee"@.len());
    }
    assert("radiogroup"@ != "marquee"@) by {
        assert("radiogroup"@.len() != "marquee"@.len());
    }
    assert("region"@ != "marquee"@) by {
        assert("region"@.len() != "marquee"@.len());
    }
    assert("row"@ != "marquee"@) by {
        assert("row"@.len() != "marquee"@.len());
    }
    assert("rowgroup"@ != "marquee"@) by {
        assert("rowgroup"@.len() != "marquee"@.len());
    }
    assert("rowheader"@ != "marquee"@) by {
        assert("rowheader"@.len() != "marquee"@.len());
    }
    assert("scrollbar"@ != "marquee"@) by {
        assert("scrollbar"@.len() != "marquee"@.len());
    }
    assert("search"@ != "marquee"@) by {
        assert("search"@.len() != "marquee"@.len());
    }
    assert("searchbox"@ != "marquee"@) by {
        assert("searchbox"@.len() != "marquee"@.len());
    }
    assert("separator"@ != "marquee"@) by {
        assert("separator"@.len() != "marquee"@.len());
    }
    assert("slider"@ != "marquee"@) by {
        assert("slider"@.len() != "marquee"@.len());
    }
    assert("spinbutton"@ != "marquee"@) by {
        assert("spinbutton"@.len() != "marquee"@.len());
    }
    assert("status"@ != "marquee"@) by {
        assert("status"@.len() != "marquee"@.len());
    }
    assert("switch"@ != "marquee"@) by {
        assert("switch"@.len() != "marquee"@.len());
    }
    assert("tab"@ != "marquee"@) by {
        assert("tab"@.len() != "marquee"@.len());
    }
    assert("table"@ != "marquee"@) by {
        assert("table"@.len() != "marquee"@.len());
    }
    assert("tablist"@ != "marquee"@) by {
        assert("tablist"@[0] != "marquee"@[0]);
    }
    assert("tabpanel"@ != "marquee"@) by {
        assert("tabpanel"@.len() != "marquee"@.len());
    }
    assert("term"@ != "marquee"@) by {
        assert("term"@.len() != "marquee"@.len());
    }
    assert("textbox"@ != "marquee"@) by {
        assert("textbox"@[0] != "marquee"@[0]);
    }
    assert("timer"@ != "marquee"@) by {
        assert("timer"@.len() != "marquee"@.len());
    }
    assert("toolbar"@ != "marquee"@) by {
        assert("toolbar"@[0] != "marquee"@[0]);
    }
    assert("tooltip"@ != "marquee"@) by {
        assert("tooltip"@[0] != "marquee"@[0]);
    }
    assert("tree"@ != "marquee"@) by {
        assert("tree"@.len() != "marquee"@.len());
    }
    assert("treegrid"@ != "marquee"@) by {
        assert("treegrid"@.len() != "marquee"@.len());
    }
    assert("treeitem"@ != "marquee"@) by {
        assert("treeitem"@.len() != "marquee"@.len());
    }
    assert("command"@ != "marquee"@) by {
        assert("command"@[0] != "marquee"@[0]);
    }
    assert("composite"@ != "marquee"@) by {
        assert("composite"@.len() != "marquee"@.len());
    }
    assert("input"@ != "marquee"@) by {
        assert("input"@.len() != "marquee"@.len());
    }
    assert("landmark"@ != "marquee"@) by {
        assert("landmark"@.len() != "marquee"@.len());
    }
    assert("range"@ != "marquee"@) by {
        assert("range"@.len() != "marquee"@.len());
    }
    assert("roletype"@ != "marquee"@) by {
        assert("roletype"@.len() != "marquee"@.len());
    }
    assert("section"@ != "marquee"@) by {
        assert("section"@[0] != "marquee"@[0]);
    }
    assert("sectionhead"@ != "marquee"@) by {
        assert("sectionhead"@.len() != "marquee"@.len());
    }
    assert("select"@ != "marquee"@) by {
        assert("select"@.len() != "marquee"@.len());
    }
    assert("structure"@ != "marquee"@) by {
        assert("structure"@.len() != "marquee"@.len());
    }
    assert("widget"@ != "marquee"@) by {
        assert("widget"@.len() != "marquee"@.len());
    }
    assert("window"@ != "marquee"@) by {
        assert("window"@.len() != "marquee"@.len());
    }
}

proof fn role_name_unique_math(b: Role)
    requires
        b.name_spec() == "math"@,
    ensures
        b == Role::Math,
{
    reveal_strlit("alert");
    reveal_strlit("alertdialog");
    reveal_strlit("application");
    reveal_strlit("article");
    reveal_strlit("banner");
    reveal_strlit("button");
    reveal_strlit("cell");
    reveal_strlit("checkbox");
    reveal_strlit("columnheader");
    reveal_strlit("combobox");
    reveal_strlit("complementary");
    reveal_strlit("contentinfo");
    reveal_strlit("definition");
    reveal_strlit("dialog");
    reveal_strlit("directory");
    reveal_strlit("document");
    reveal_strlit("feed");
    reveal_strlit("figure");
    reveal_strlit("form");
    reveal_strlit("grid");
    reveal_strlit("gridcell");
    reveal_strlit("group");
    reveal_strlit("heading");
    reveal_strlit("img");
    reveal_strlit("link");
    reveal_strlit("list");
    reveal_strlit("listbox");
    reveal_strlit("listitem");
    reveal_strlit("log");
    reveal_strlit("main");
    reveal_strlit("marquee");
    reveal_strlit("math");
    reveal_strlit("menu");
    reveal_strlit("menubar");
    reveal_strlit("menuitem");
    reveal_strlit("menuitemcheckbox");
    reveal_strlit("menuitemradio");
    reveal_strlit("meter");
    reveal_strlit("navigation");
    reveal_strlit("none");
    reveal_strlit("note");
    reveal_strlit("option");
    reveal_strlit("presentation");
    reveal_strlit("progressbar");
    reveal_strlit("radio");
    reveal_strlit("radiogroup");
    reveal_strlit("region");
    reveal_strlit("row");
    reveal_strlit("rowgroup");
    reveal_strlit("rowheader");
    reveal_strlit("scrollbar");
    reveal_strlit("search");
    reveal_strlit("searchbox");
    reveal_strlit("separator");
    reveal_strlit("slider");
    reveal_strlit("spinbutton");
    reveal_strlit("status");
    reveal_strlit("switch");
    reveal_strlit("tab");
    reveal_strlit("table");
    reveal_strlit("tablist");
    reveal_strlit("tabpanel");
    reveal_strlit("term");
    reveal_strlit("textbox");
    reveal_strlit("timer");
    reveal_strlit("toolbar");
    reveal_strlit("tooltip");
    reveal_strlit("tree");
    reveal_strlit("treegrid");
    reveal_strlit("treeitem");
    reveal_strlit("command");
    reveal_strlit("composite");
    reveal_strlit("input");
    reveal_strlit("landmark");
    reveal_strlit("range");
    reveal_strlit("roletype");
    reveal_strlit("section");
    reveal_strlit("sectionhead");
    reveal_strlit("select");
    reveal_strlit("structure");
    reveal_strlit("widget");
    reveal_strlit("window");
    assert("alert"@ != "math"@) by {
        assert("alert"@.len() != "math"@.len());
    }
    assert("alertdialog"@ != "math"@) by {
        assert("alertdialog"@.len() != "math"@.len());
    }
    assert("application"@ != "math"@) by {
        assert("application"@.len() != "math"@.len());
    }
    assert("article"@ != "math"@) by {
        assert("article"@.len() != "math"@.len());
    }
    assert("banner"@ != "math"@) by {
        assert("banner"@.len() != "math"@.len());
    }
    assert("button"@ != "math"@) by {
        assert("button"@.len() != "math"@.len());
    }
    assert("cell"@ != "math"@) by {
        assert("cell"@[0] != "math"@[0]);
    }
    assert("checkbox"@ != "math"@) by {
        assert("checkbox"@.len() != "math"@.len());
    }
    assert("columnheader"@ != "math"@) by {
        assert("columnheader"@.len() != "math"@.len());
    }
    assert("combobox"@ != "math"@) by {
        assert("combobox"@.len() != "math"@.len());
    }
    assert("complementary"@ != "math"@) by {
        assert("complementary"@.len() != "math"@.len());
    }
    assert("contentinfo"@ != "math"@) by {
        assert("contentinfo"@.len() != "math"@.len());
    }
    assert("definition"@ != "math"@) by {
        assert("definition"@.len() != "math"@.len());
    }
    assert("dialog"@ != "math"@) by {
        assert("dialog"@.len() != "math"@.len());
    }
    assert("directory"@ != "math"@) by {
        assert("directory"@.len() != "math"@.len());
    }
    assert("document"@ != "math"@) by {
        assert("document"@.len() != "math"@.len());
    }
    assert("feed"@ != "math"@) by {
        assert("feed"@[0] != "math"@[0]);
    }
    assert("figure"@ != "math"@) by {
        assert("figure"@.len() != "math"@.len());
    }
    assert("form"@ != "math"@) by {
        assert("form"@[0] != "math"@[0]);
    }
    assert("grid"@ != "math"@) by {
        assert("grid"@[0] != "math"@[0]);
    }
    assert("gridcell"@ != "math"@) by {
        assert("gridcell"@.len() != "math"@.len());
    }
    assert("group"@ != "math"@) by {
        assert("group"@.len() != "math"@.len());
    }
    assert("heading"@ != "math"@) by {
        assert("heading"@.len() != "math"@.len());
    }
    assert("img"@ != "math"@) by {
        assert("img"@.len() != "math"@.len());
    }
    assert("link"@ != "math"@) by {
        assert("link"@[0] != "math"@[0]);
    }
    assert("list"@ != "math"@) by {
        assert("list"@[0] != "math"@[0]);
    }
    assert("listbox"@ != "math"@) by {
        assert("listbox"@.len() != "math"@.len());
    }
    assert("listitem"@ != "math"@) by {
        assert("listitem"@.len() != "math"@.len());
    }
    assert("log"@ != "math"@) by {
        assert("log"@.len() != "math"@.len());
    }
    assert("main"@ != "math"@) by {
        assert("main"@[2] != "math"@[2]);
    }
    assert("marquee"@ != "math"@) by {
        assert("marquee"@.len() != "math"@.len());
    }
    assert("menu"@ != "math"@) by {
        assert("menu"@[1] != "math"@[1]);
    }
    assert("menubar"@ != "math"@) by {
        assert("menubar"@.len() != "math"@.len());
    }
    assert("menuitem"@ != "math"@) by {
        assert("menuitem"@.len() != "math"@.len());
    }
    assert("menuitemcheckbox"@ != "math"@) by {
        assert("menuitemcheckbox"@.len() != "math"@.len());
    }
    assert("menuitemradio"@ != "math"@) by {
        assert("menuitemradio"@.len() != "math"@.len());
    }
    assert("meter"@ != "math"@) by {
        assert("meter"@.len() != "math"@.len());
    }
    assert("navigation"@ != "math"@) by {
        assert("navigation"@.len() != "math"@.len());
    }
    assert("none"@ != "math"@) by {
        assert("none"@[0] != "math"@[0]);
    }
    assert("note"@ != "math"@) by {
        assert("note"@[0] != "math"@[0]);
    }
    assert("option"@ != "math"@) by {
        assert("option"@.len() != "math"@.len());
    }
    assert("presentation"@ != "math"@) by {
        assert("presentation"@.len() != "math"@.len());
    }
    assert("progressbar"@ != "math"@) by {
        assert("progressbar"@.len() != "math"@.len());
    }
    assert("radio"@ != "math"@) by {
        assert("radio"@.len() != "math"@.len());
    }
    assert("radiogroup"@ != "math"@) by {
        assert("radiogroup"@.len() != "math"@.len());
    }
    assert("region"@ != "math"@) by {
        assert("region"@.len() != "math"@.len());
    }
    assert("row"@ != "math"@) by {
        assert("row"@.len() != "math"@.len());
    }
    assert("rowgroup"@ != "math"@) by {
        assert("rowgroup"@.len() != "math"@.len());
    }
    assert("rowheader"@ != "math"@) by {
        assert("rowheader"@.len() != "math"@.len());
    }
    assert("scrollbar"@ != "math"@) by {
        assert("scrollbar"@.len() != "math"@.len());
    }
    assert("search"@ != "math"@) by {
        assert("search"@.len() != "math"@.len());
    }
    assert("searchbox"@ != "math"@) by {
        assert("searchbox"@.len() != "math"@.len());
    }
    assert("separator"@ != "math"@) by {
        assert("separator"@.len() != "math"@.len());
    }
    assert("slider"@ != "math"@) by {
        assert("slider"@.len() != "math"@.len());
    }
    assert("spinbutton"@ != "math"@) by {
        assert("spinbutton"@.len() != "math"@.len());
    }
    assert("status"@ != "math"@) by {
        assert("status"@.len() != "math"@.len());
    }
    assert("switch"@ != "math"@) by {
        assert("switch"@.len() != "math"@.len());
    }
    assert("tab"@ != "math"@) by {
        assert("tab"@.len() != "math"@.len());
    }
    assert("table"@ != "math"@) by {
        assert("table"@.len() != "math"@.len());
    }
    assert("tablist"@ != "math"@) by {
        assert("tablist"@.len() != "math"@.len());
    }
    assert("tabpanel"@ != "math"@) by {
        assert("tabpanel"@.len() != "math"@.len());
    }
    assert("term"@ != "math"@) by {
        assert("term"@[0] != "math"@[0]);
    }
    assert("textbox"@ != "math"@) by {
        assert("textbox"@.len() != "math"@.len());
    }
    assert("timer"@ != "math"@) by {
        assert("timer"@.len() != "math"@.len());
    }
    assert("toolbar"@ != "math"@) by {
        assert("toolbar"@.len() != "math"@.len());
    }
    assert("tooltip"@ != "math"@) by {
        assert("tooltip"@.len() != "math"@.len());
    }
    assert("tree"@ != "math"@) by {
        assert("tree"@[0] != "math"@[0]);
    }
    assert("treegrid"@ != "math"@) by {
        assert("treegrid"@.len() != "math"@.len());
    }
    assert("treeitem"@ != "math"@) by {
        assert("treeitem"@.len() != "math"@.len());
    }
    assert("command"@ != "math"@) by {
        assert("command"@.len() != "math"@.len());
    }
    assert("composite"@ != "math"@) by {
        assert("composite"@.len() != "math"@.len());
    }
    assert("input"@ != "math"@) by {
        assert("input"@.len() != "math"@.len());
    }
    assert("landmark"@ != "math"@) by {
        assert("landmark"@.len() != "math"@.len());
    }
    assert("range"@ != "math"@) by {
        assert("range"@.len() != "math"@.len());
    }
    assert("roletype"@ != "math"@) by {
        assert("roletype"@.len() != "math"@.len());
    }
    assert("section"@ != "math"@) by {
        assert("section"@.len() != "math"@.len());
    }
    assert("sectionhead"@ != "math"@) by {
        assert("sectionhead"@.len() != "math"@.len());
    }
    assert("select"@ != "math"@) by {
        assert("select"@.len() != "math"@.len());
    }
    assert("structure"@ != "math"@) by {
        assert("structure"@.len() != "math"@.len());
    }
    assert("widget"@ != "math"@) by {
        assert("widget"@.len() != "math"@.len());
    }
    assert("window"@ != "math"@) by {
        assert("window"@.len() != "math"@.len());
    }
}

proof fn role_name_unique_menu(b: Role)
    requires
        b.name_spec() == "menu"@,
    ensures
        b == Role::Menu,
{
    reveal_strlit("alert");
    reveal_strlit("alertdialog");
    reveal_strlit("application");
    reveal_strlit("article");
    reveal_strlit("banner");
    reveal_strlit("button");
    reveal_strlit("cell");
    reveal_strlit("checkbox");
    reveal_strlit("columnheader");
    reveal_strlit("combobox");
    reveal_strlit("complementary");
    reveal_strlit("contentinfo");
    reveal_strlit("definition");
    reveal_strlit("dialog");
    reveal_strlit("directory");
    reveal_strlit("document");
    reveal_strlit("feed");
    reveal_strlit("figure");
    reveal_strlit("form");
    reveal_strlit("grid");
    reveal_strlit("gridcell");
    reveal_strlit("group");
    reveal_strlit("heading");
    reveal_strlit("img");
    reveal_strlit("link");
    reveal_strlit("list");
    reveal_strlit("listbox");
    reveal_strlit("listitem");
    reveal_strlit("log");
    reveal_strlit("main");
    reveal_strlit("marquee");
    reveal_strlit("math");
    reveal_strlit("menu");
    reveal_strlit("menubar");
    reveal_strlit("menuitem");
    reveal_strlit("menuitemcheckbox");
    reveal_strlit("menuitemradio");
    reveal_strlit("meter");
    reveal_strlit("navigation");
    reveal_strlit("none");
    reveal_strlit("note");
    reveal_strlit("option");
    reveal_strlit("presentation");
    reveal_strlit("progressbar");
    reveal_strlit("radio");
    reveal_strlit("radiogroup");
    reveal_strlit("region");
    reveal_strlit("row");
    reveal_strlit("rowgroup");
    reveal_strlit("rowheader");
    reveal_strlit("scrollbar");
    reveal_strlit("search");
    reveal_strlit("searchbox");
    reveal_strlit("separator");
    reveal_strlit("slider");
    reveal_strlit("spinbutton");
    reveal_strlit("status");
    reveal_strlit("switch");
    reveal_strlit("tab");
    reveal_strlit("table");
    reveal_strlit("tablist");
    reveal_strlit("tabpanel");
    reveal_strlit("term");
    reveal_strlit("textbox");
    reveal_strlit("timer");
    reveal_strlit("toolbar");
    reveal_strlit("tooltip");
    reveal_strlit("tree");
    reveal_strlit("treegrid");
    reveal_strlit("treeitem");
    reveal_strlit("command");
    reveal_strlit("composite");
    reveal_strlit("input");
    reveal_strlit("landmark");
    reveal_strlit("range");
    reveal_strlit("roletype");
    reveal_strlit("section");
    reveal_strlit("sectionhead");
    reveal_strlit("select");
    reveal_strlit("structure");
    reveal_strlit("widget");
    reveal_strlit("window");
    assert("alert"@ != "menu"@) by {
        assert("alert"@.len() != "menu"@.len());
    }
    assert("alertdialog"@ != "menu"@) by {
        assert("alertdialog"@.len() != "menu"@.len());
    }
    assert("application"@ != "menu"@) by {
        assert("application"@.len() != "menu"@.len());
    }
    assert("article"@ != "menu"@) by {
        assert("article"@.len() != "menu"@.len());
    }
    assert("banner"@ != "menu"@) by {
        assert("banner"@.len() != "menu"@.len());
    }
    assert("button"@ != "menu"@) by {
        assert("button"@.len() != "menu"@.len());
    }
    assert("cell"@ != "menu"@) by {
        assert("cell"@[0] != "menu"@[0]);
    }
    assert("checkbox"@ != "menu"@) by {
        assert("checkbox"@.len() != "menu"@.len());
    }
    assert("columnheader"@ != "menu"@) by {
        assert("columnheader"@.len() != "menu"@.len());
    }
    assert("combobox"@ != "menu"@) by {
        assert("combobox"@.len() != "menu"@.len());
    }
    assert("complementary"@ != "menu"@) by {
        assert("complementary"@.len() != "menu"@.len());
    }
    assert("contentinfo"@ != "menu"@) by {
        assert("contentinfo"@.len() != "menu"@.len());
    }
    assert("definition"@ != "menu"@) by {
        assert("definition"@.len() != "menu"@.len());
    }
    assert("dialog"@ != "menu"@) by {
        assert("dialog"@.len() != "menu"@.len());
    }
    assert("directory"@ != "menu"@) by {
        assert("directory"@.len() != "menu"@.len());
    }
    assert("document"@ != "menu"@) by {
        assert("document"@.len() != "menu"@.len());
    }
    assert("feed"@ != "menu"@) by {
        assert("feed"@[0] != "menu"@[0]);
    }
    assert("figure"@ != "menu"@) by {
        assert("figure"@.len() != "menu"@.len());
    }
    assert("form"@ != "menu"@) by {
        assert("form"@[0] != "menu"@[0]);
    }
    assert("grid"@ != "menu"@) by {
        assert("grid"@[0] != "menu"@[0]);
    }
    assert("gridcell"@ != "menu"@) by {
        assert("gridcell"@.len() != "menu"@.len());
    }
    assert("group"@ != "menu"@) by {
        assert("group"@.len() != "menu"@.len());
    }
    assert("heading"@ != "menu"@) by {
        assert("heading"@.len() != "menu"@.len());
    }
    assert("img"@ != "menu"@) by {
        assert("img"@.len() != "menu"@.len());
    }
    assert("link"@ != "menu"@) by {
        assert("link"@[0] != "menu"@[0]);
    }
    assert("list"@ != "menu"@) by {
        assert("list"@[0] != "menu"@[0]);
    }
    assert("listbox"@ != "menu"@) by {
        assert("listbox"@.len() != "menu"@.len());
    }
    assert("listitem"@ != "menu"@) by {
        assert("listitem"@.len() != "menu"@.len());
    }
    assert("log"@ != "menu"@) by {
        assert("log"@.len() != "menu"@.len());
    }
    assert("main"@ != "menu"@) by {
        assert("main"@[1] != "menu"@[1]);
    }
    assert("marquee"@ != "menu"@) by {
        assert("marquee"@.len() != "menu"@.len());
    }
    assert("math"@ != "menu"@) by {
        assert("math"@[1] != "menu"@[1]);
    }
    assert("menubar"@ != "menu"@) by {
        assert("menubar"@.len() != "menu"@.len());
    }
    assert("menuitem"@ != "menu"@) by {
        assert("menuitem"@.len() != "menu"@.len());
    }
    assert("menuitemcheckbox"@ != "menu"@) by {
        assert("menuitemcheckbox"@.len() != "menu"@.len());
    }
    assert("menuitemradio"@ != "menu"@) by {
        assert("menuitemradio"@.len() != "menu"@.len());
    }
    assert("meter"@ != "menu"@) by {
        assert("meter"@.len() != "menu"@.len());
    }
    assert("navigation"@ != "menu"@) by {
        assert("navigation"@.len() != "menu"@.len());
    }
    assert("none"@ != "menu"@) by {
        assert("none"@[0] != "menu"@[0]);
    }
    assert("note"@ != "menu"@) by {
        assert("note"@[0] != "menu"@[0]);
    }
    assert("option"@ != "menu"@) by {
        assert("option"@.len() != "menu"@.len());
    }
    assert("presentation"@ != "menu"@) by {
        assert("presentation"@.len() != "menu"@.len());
    }
    assert("progressbar"@ != "menu"@) by {
        assert("progressbar"@.len() != "menu"@.len());
    }
    assert("radio"@ != "menu"@) by {
        assert("radio"@.len() != "menu"@.len());
    }
    assert("radiogroup"@ != "menu"@) by {
        assert("radiogroup"@.len() != "menu"@.len());
    }
    assert("region"@ != "menu"@) by {
        assert("region"@.len() != "menu"@.len());
    }
    assert("row"@ != "menu"@) by {
        assert("row"@.len() != "menu"@.len());
    }
    assert("rowgroup"@ != "menu"@) by {
        assert("rowgroup"@.len() != "menu"@.len());
    }
    assert("rowheader"@ != "menu"@) by {
        assert("rowheader"@.len() != "menu"@.len());
    }
    assert("scrollbar"@ != "menu"@) by {
        assert("scrollbar"@.len() != "menu"@.len());
    }
    assert("search"@ != "menu"@) by {
        assert("search"@.len() != "menu"@.len());
    }
    assert("searchbox"@ != "menu"@) by {
        assert("searchbox"@.len() != "menu"@.len());
    }
    assert("separator"@ != "menu"@) by {
        assert("separator"@.len() != "menu"@.len());
    }
    assert("slider"@ != "menu"@) by {
        assert("slider"@.len() != "menu"@.len());
    }
    assert("spinbutton"@ != "menu"@) by {
        assert("spinbutton"@.len() != "menu"@.len());
    }
    assert("status"@ != "menu"@) by {
        assert("status"@.len() != "menu"@.len());
    }
    assert("switch"@ != "menu"@) by {
        assert("switch"@.len() != "menu"@.len());
    }
    assert("tab"@ != "menu"@) by {
        assert("tab"@.len() != "menu"@.len());
    }
    assert("table"@ != "menu"@) by {
        assert("table"@.len() != "menu"@.len());
    }
    assert("tablist"@ != "menu"@) by {
        assert("tablist"@.len() != "menu"@.len());
    }
    assert("tabpanel"@ != "menu"@) by {
        assert("tabpanel"@.len() != "menu"@.len());
    }
    assert("term"@ != "menu"@) by {
        assert("term"@[0] != "menu"@[0]);
    }
    assert("textbox"@ != "menu"@) by {
        assert("textbox"@.len() != "menu"@.len());
    }
    assert("timer"@ != "menu"@) by {
        assert("timer"@.len() != "menu"@.len());
    }
    assert("toolbar"@ != "menu"@) by {
        assert("toolbar"@.len() != "menu"@.len());
    }
    assert("tooltip"@ != "menu"@) by {
        assert("tooltip"@.len() != "menu"@.len());
    }
    assert("tree"@ != "menu"@) by {
        assert("tree"@[0] != "menu"@[0]);
    }
    assert("treegrid"@ != "menu"@) by {
        assert("treegrid"@.len() != "menu"@.len());
    }
    assert("treeitem"@ != "menu"@) by {
        assert("treeitem"@.len() != "menu"@.len());
    }
    assert("command"@ != "menu"@) by {
        assert("command"@.len() != "menu"@.len());
    }
    assert("composite"@ != "menu"@) by {
        assert("composite"@.len() != "menu"@.len());
    }
    assert("input"@ != "menu"@) by {
        assert("input"@.len() != "menu"@.len());
    }
    assert("landmark"@ != "menu"@) by {
        assert("landmark"@.len() != "menu"@.len());
    }
    assert("range"@ != "menu"@) by {
        assert("range"@.len() != "menu"@.len());
    }
    assert("roletype"@ != "menu"@) by {
        assert("roletype"@.len() != "menu"@.len());
    }
    assert("section"@ != "menu"@) by {
        assert("section"@.len() != "menu"@.len());
    }
    assert("sectionhead"@ != "menu"@) by {
        assert("sectionhead"@.len() != "menu"@.len());
    }
    assert("select"@ != "menu"@) by {
        assert("select"@.len() != "menu"@.len());
    }
    assert("structure"@ != "menu"@) by {
        assert("structure"@.len() != "menu"@.len());
    }
    assert("widget"@ != "menu"@) by {
        assert("widget"@.len() != "menu"@.len());
    }
    assert("window"@ != "menu"@) by {
        assert("window"@.len() != "menu"@.len());
    }
}

proof fn role_name_unique_menubar(b: Role)
    requires
        b.name_spec() == "menubar"@,
    ensures
        b == Role::Menubar,
{
    reveal_strlit("alert");
    reveal_strlit("alertdialog");
    reveal_strlit("application");
    reveal_strlit("article");
    reveal_strlit("banner");
    reveal_strlit("button");
    reveal_strlit("cell");
    reveal_strlit("checkbox");
    reveal_strlit("columnheader");
    reveal_strlit("combobox");
    reveal_strlit("complementary");
    reveal_strlit("contentinfo");
    reveal_strlit("definition");
    reveal_strlit("dialog");
    reveal_strlit("directory");
    reveal_strlit("document");
    reveal_strlit("feed");
    reveal_strlit("figure");
    reveal_strlit("form");
    reveal_strlit("grid");
    reveal_strlit("gridcell");
    reveal_strlit("group");
    reveal_strlit("heading");
    reveal_strlit("img");
    reveal_strlit("link");
    reveal_strlit("list");
    reveal_strlit("listbox");
    reveal_strlit("listitem");
    reveal_strlit("log");
    reveal_strlit("main");
    reveal_strlit("marquee");
    reveal_strlit("math");
    reveal_strlit("menu");
    reveal_strlit("menubar");
    reveal_strlit("menuitem");
    reveal_strlit("menuitemcheckbox");
    reveal_strlit("menuitemradio");
    reveal_strlit("meter");
    reveal_strlit("navigation");
    reveal_strlit("none");
    reveal_strlit("note");
    reveal_strlit("option");
    reveal_strlit("presentation");
    reveal_strlit("progressbar");
    reveal_strlit("radio");
    reveal_strlit("radiogroup");
    reveal_strlit("region");
    reveal_strlit("row");
    reveal_strlit("rowgroup");
    reveal_strlit("rowheader");
    reveal_strlit("scrollbar");
    reveal_strlit("search");
    reveal_strlit("searchbox");
    reveal_strlit("separator");
    reveal_strlit("slider");
    reveal_strlit("spinbutton");
    reveal_strlit("status");
    reveal_strlit("switch");
    reveal_strlit("tab");
    reveal_strlit("table");
    reveal_strlit("tablist");
    reveal_strlit("tabpanel");
    reveal_strlit("term");
    reveal_strlit("textbox");
    reveal_strlit("timer");
    reveal_strlit("toolbar");
    reveal_strlit("tooltip");
    reveal_strlit("tree");
    reveal_strlit("treegrid");
    reveal_strlit("treeitem");
    reveal_strlit("command");
    reveal_strlit("composite");
    reveal_strlit("input");
    reveal_strlit("landmark");
    reveal_strlit("range");
    reveal_strlit("roletype");
    reveal_strlit("section");
    reveal_strlit("sectionhead");
    reveal_strlit("select");
    reveal_strlit("structure");
    reveal_strlit("widget");
    reveal_strlit("window");
    assert("alert"@ != "menubar"@) by {
        assert("alert"@.len() != "menubar"@.len());
    }
    assert("alertdialog"@ != "menubar"@) by {
        assert("alertdialog"@.len() != "menubar"@.len());
    }
    assert("application"@ != "menubar"@) by {
        assert("application"@.len() != "menubar"@.len());
    }
    assert("article"@ != "menubar"@) by {
        assert("article"@[0] != "menubar"@[0]);
    }
    assert("banner"@ != "menubar"@) by {
        assert("banner"@.len() != "menubar"@.len());
    }
    assert("button"@ != "menubar"@) by {
        assert("button"@.len() != "menubar"@.len());
    }
    assert("cell"@ != "menubar"@) by {
        assert("cell"@.len() != "menubar"@.len());
    }
    assert("checkbox"@ != "menubar"@) by {
        assert("checkbox"@.len() != "menubar"@.len());
    }
    assert("columnheader"@ != "menubar"@) by {
        assert("columnheader"@.len() != "menubar"@.len());
    }
    assert("combobox"@ != "menubar"@) by {
        assert("combobox"@.len() != "menubar"@.len());
    }
    assert("complementary"@ != "menubar"@) by {
        assert("complementary"@.len() != "menubar"@.len());
    }
    assert("contentinfo"@ != "menubar"@) by {
        assert("contentinfo"@.len() != "menubar"@.len());
    }
    assert("definition"@ != "menubar"@) by {
        assert("definition"@.len() != "menubar"@.len());
    }
    assert("dialog"@ != "menubar"@) by {
        assert("dialog"@.len() != "menubar"@.len());
    }
    assert("directory"@ != "menubar"@) by {
        assert("directory"@.len() != "menubar"@.len());
    }
    assert("document"@ != "menubar"@) by {
        assert("document"@.len() != "menubar"@.len());
    }
    assert("feed"@ != "menubar"@) by {
        assert("feed"@.len() != "menubar"@.len());
    }
    assert("figure"@ != "menubar"@) by {
        assert("figure"@.len() != "menubar"@.len());
    }
    assert("form"@ != "menubar"@) by {
        assert("form"@.len() != "menubar"@.len());
    }
    assert("grid"@ != "menubar"@) by {
        assert("grid"@.len() != "menubar"@.len());
    }
    assert("gridcell"@ != "menubar"@) by {
        assert("gridcell"@.len() != "menubar"@.len());
    }
    assert("group"@ != "menubar"@) by {
        assert("group"@.len() != "menubar"@.len());
    }
    assert("heading"@ != "menubar"@) by {
        assert("heading"@[0] != "menubar"@[0]);
    }
    assert("img"@ != "menubar"@) by {
        assert("img"@.len() != "menubar"@.len());
    }
    assert("link"@ != "menubar"@) by {
        assert("link"@.len() != "menubar"@.len());
    }
    assert("list"@ != "menubar"@) by {
        assert("list"@.len() != "menubar"@.len());
    }
    assert("listbox"@ != "menubar"@) by {
        assert("listbox"@[0] != "menubar"@[0]);
    }
    assert("listitem"@ != "menubar"@) by {
        assert("listitem"@.len() != "menubar"@.len());
    }
    assert("log"@ != "menubar"@) by {
        assert("log"@.len() != "menubar"@.len());
    }
    assert("main"@ != "menubar"@) by {
        assert("main"@.len() != "menubar"@.len());
    }
    assert("marquee"@ != "menubar"@) by {
        assert("marquee"@[1] != "menubar"@[1]);
    }
    assert("math"@ != "menubar"@) by {
        assert("math"@.len() != "menubar"@.len());
    }
    assert("menu"@ != "menubar"@) by {
        assert("menu"@.len() != "menubar"@.len());
    }
    assert("menuitem"@ != "menubar"@) by {
        assert("menuitem"@.len() != "menubar"@.len());
    }
    assert("menuitemcheckbox"@ != "menubar"@) by {
        assert("menuitemcheckbox"@.len() != "menubar"@.len());
    }
    assert("menuitemradio"@ != "menubar"@) by {
        assert("menuitemradio"@.len() != "menubar"@.len());
    }
    assert("meter"@ != "menubar"@) by {
        assert("meter"@.len() != "menubar"@.len());
    }
    assert("navigation"@ != "menubar"@) by {
        assert("navigation"@.len() != "menubar"@.len());
    }
    assert("none"@ != "menubar"@) by {
        assert("none"@.len() != "menubar"@.len());
    }
    assert("note"@ != "menubar"@) by {
        assert("note"@.len() != "menubar"@.len());
    }
    assert("option"@ != "menubar"@) by {
        assert("option"@.len() != "menubar"@.len());
    }
    assert("presentation"@ != "menubar"@) by {
        assert("presentation"@.len() != "menubar"@.len());
    }
    assert("progressbar"@ != "menubar"@) by {
        assert("progressbar"@.len() != "menubar"@.len());
    }
    assert("radio"@ != "menubar"@) by {
        assert("radio"@.len() != "menubar"@.len());
    }
    assert("radiogroup"@ != "menubar"@) by {
        assert("radiogroup"@.len() != "menubar"@.len());
    }
    assert("region"@ != "menubar"@) by {
        assert("region"@.len() != "menubar"@.len());
    }
    assert("row"@ != "menubar"@) by {
        assert("row"@.len() != "menubar"@.len());
    }
    assert("rowgroup"@ != "menubar"@) by {
        assert("rowgroup"@.len() != "menubar"@.len());
    }
    assert("rowheader"@ != "menubar"@) by {
        assert("rowheader"@.len() != "menubar"@.len());
    }
    assert("scrollbar"@ != "menubar"@) by {
        assert("scrollbar"@.len() != "menubar"@.len());
    }
    assert("search"@ != "menubar"@) by {
        assert("search"@.len() != "menubar"@.len());
    }
    assert("searchbox"@ != "menubar"@) by {
        assert("searchbox"@.len() != "menubar"@.len());
    }
    assert("separator"@ != "menubar"@) by {
        assert("separator"@.len() != "menubar"@.len());
    }
    assert("slider"@ != "menubar"@) by {
        assert("slider"@.len() != "menubar"@.len());
    }
    assert("spinbutton"@ != "menubar"@) by {
        assert("spinbutton"@.len() != "menubar"@.len());
    }
    assert("status"@ != "menubar"@) by {
        assert("status"@.len() != "menubar"@.len());
    }
    assert("switch"@ != "menubar"@) by {
        assert("switch"@.len() != "menubar"@.len());
    }
    assert("tab"@ != "menubar"@) by {
        assert("tab"@.len() != "menubar"@.len());
    }
    assert("table"@ != "menubar"@) by {
        assert("table"@.len() != "menubar"@.len());
    }
    assert("tablist"@ != "menubar"@) by {
        assert("tablist"@[0] != "menubar"@[0]);
    }
    assert("tabpanel"@ != "menubar"@) by {
        assert("tabpanel"@.len() != "menubar"@.len());
    }
    assert("term"@ != "menubar"@) by {
        assert("term"@.len() != "menubar"@.len());
    }
    assert("textbox"@ != "menubar"@) by {
        assert("textbox"@[0] != "menubar"@[0]);
    }
    assert("timer"@ != "menubar"@) by {
        assert("timer"@.len() != "menubar"@.len());
    }
    assert("toolbar"@ != "menubar"@) by {
        assert("toolbar"@[0] != "menubar"@[0]);
    }
    assert("tooltip"@ != "menubar"@) by {
        assert("tooltip"@[0] != "menubar"@[0]);
    }
    assert("tree"@ != "menubar"@) by {
        assert("tree"@.len() != "menubar"@.len());
    }
    assert("treegrid"@ != "menubar"@) by {
        assert("treegrid"@.len() != "menubar"@.len());
    }
    assert("treeitem"@ != "menubar"@) by {
        assert("treeitem"@.len() != "menubar"@.len());
    }
    assert("command"@ != "menubar"@) by {
        assert("command"@[0] != "menubar"@[0]);
    }
    assert("composite"@ != "menubar"@) by {
        assert("composite"@.len() != "menubar"@.len());
    }
    assert("input"@ != "menubar"@) by {
        assert("input"@.len() != "menubar"@.len());
    }
    assert("landmark"@ != "menubar"@) by {
        assert("landmark"@.len() != "menubar"@.len());
    }
    assert("range"@ != "menubar"@) by {
        assert("range"@.len() != "menubar"@.len());
    }
    assert("roletype"@ != "menubar"@) by {
        assert("roletype"@.len() != "menubar"@.len());
    }
    assert("section"@ != "menubar"@) by {
        assert("section"@[0] != "menubar"@[0]);
    }
    assert("sectionhead"@ != "menubar"@) by {
        assert("sectionhead"@.len() != "menubar"@.len());
    }
    assert("select"@ != "menubar"@) by {
        assert("select"@.len() != "menubar"@.len());
    }
    assert("structure"@ != "menubar"@) by {
        assert("structure"@.len() != "menubar"@.len());
    }
    assert("widget"@ != "menubar"@) by {
        assert("widget"@.len() != "menubar"@.len());
    }
    assert("window"@ != "menubar"@) by {
        assert("window"@.len() != "menubar"@.len());
    }
}

proof fn role_name_unique_menuitem(b: Role)
    requires
        b.name_spec() == "menuitem"@,
    ensures
        b == Role::MenuItem,
{
    reveal_strlit("alert");
    reveal_strlit("alertdialog");
    reveal_strlit("application");
    reveal_strlit("article");
    reveal_strlit("banner");
    reveal_strlit("button");
    reveal_strlit("cell");
    reveal_strlit("checkbox");
    reveal_strlit("columnheader");
    reveal_strlit("combobox");
    reveal_strlit("complementary");
    reveal_strlit("contentinfo");
    reveal_strlit("definition");
    reveal_strlit("dialog");
    reveal_strlit("directory");
    reveal_strlit("document");
    reveal_strlit("feed");
    reveal_strlit("figure");
    reveal_strlit("form");
    reveal_strlit("grid");
    reveal_strlit("gridcell");
    reveal_strlit("group");
    reveal_strlit("heading");
    reveal_strlit("img");
    reveal_strlit("link");
    reveal_strlit("list");
    reveal_strlit("listbox");
    reveal_strlit("listitem");
    reveal_strlit("log");
    reveal_strlit("main");
    reveal_strlit("marquee");
    reveal_strlit("math");
    reveal_strlit("menu");
    reveal_strlit("menubar");
    reveal_strlit("menuitem");
    reveal_strlit("menuitemcheckbox");
    reveal_strlit("menuitemradio");
    reveal_strlit("meter");
    reveal_strlit("navigation");
    reveal_strlit("none");
    reveal_strlit("note");
    reveal_strlit("option");
    reveal_strlit("presentation");
    reveal_strlit("progressbar");
    reveal_strlit("radio");
    reveal_strlit("radiogroup");
    reveal_strlit("region");
    reveal_strlit("row");
    reveal_strlit("rowgroup");
    reveal_strlit("rowheader");
    reveal_strlit("scrollbar");
    reveal_strlit("search");
    reveal_strlit("searchbox");
    reveal_strlit("separator");
    reveal_strlit("slider");
    reveal_strlit("spinbutton");
    reveal_strlit("status");
    reveal_strlit("switch");
    reveal_strlit("tab");
    reveal_strlit("table");
    reveal_strlit("tablist");
    reveal_strlit("tabpanel");
    reveal_strlit("term");
    reveal_strlit("textbox");
    reveal_strlit("timer");
    reveal_strlit("toolbar");
    reveal_strlit("tooltip");
    reveal_strlit("tree");
    reveal_strlit("treegrid");
    reveal_strlit("treeitem");
    reveal_strlit("command");
    reveal_strlit("composite");
    reveal_strlit("input");
    reveal_strlit("landmark");
    reveal_strlit("range");
    reveal_strlit("roletype");
    reveal_strlit("section");
    reveal_strlit("sectionhead");
    reveal_strlit("select");
    reveal_strlit("structure");
    reveal_strlit("widget");
    reveal_strlit("window");
    assert("alert"@ != "menuitem"@) by {
        assert("alert"@.len() != "menuitem"@.len());
    }
    assert("alertdialog"@ != "menuitem"@) by {
        assert("alertdialog"@.len() != "menuitem"@.len());
    }
    assert("application"@ != "menuitem"@) by {
        assert("application"@.len() != "menuitem"@.len());
    }
    assert("article"@ != "menuitem"@) by {
        assert("article"@.len() != "menuitem"@.len());
    }
    assert("banner"@ != "menuitem"@) by {
        assert("banner"@.len() != "menuitem"@.len());
    }
    assert("button"@ != "menuitem"@) by {
        assert("button"@.len() != "menuitem"@.len());
    }
    assert("cell"@ != "menuitem"@) by {
        assert("cell"@.len() != "menuitem"@.len());
    }
    assert("checkbox"@ != "menuitem"@) by {
        assert("checkbox"@[0] != "menuitem"@[0]);
    }
    assert("columnheader"@ != "menuitem"@) by {
        assert("columnheader"@.len() != "menuitem"@.len());
    }
    assert("combobox"@ != "menuitem"@) by {
        assert("combobox"@[0] != "menuitem"@[0]);
    }
    assert("complementary"@ != "menuitem"@) by {
        assert("complementary"@.len() != "menuitem"@.len());
    }
    assert("contentinfo"@ != "menuitem"@) by {
        assert("contentinfo"@.len() != "menuitem"@.len());
    }
    assert("definition"@ != "menuitem"@) by {
        assert("definition"@.len() != "menuitem"@.len());
    }
    assert("dialog"@ != "menuitem"@) by {
        assert("dialog"@.len() != "menuitem"@.len());
    }
    assert("directory"@ != "menuitem"@) by {
        assert("directory"@.len() != "menuitem"@.len());
    }
    assert("document"@ != "menuitem"@) by {
        assert("document"@[0] != "menuitem"@[0]);
    }
    assert("feed"@ != "menuitem"@) by {
        assert("feed"@.len() != "menuitem"@.len());
    }
    assert("figure"@ != "menuitem"@) by {
        assert("figure"@.len() != "menuitem"@.len());
    }
    assert("form"@ != "menuitem"@) by {
        assert("form"@.len() != "menuitem"@.len());
    }
    assert("grid"@ != "menuitem"@) by {
        assert("grid"@.len() != "menuitem"@.len());
    }
    assert("gridcell"@ != "menuitem"@) by {
        assert("gridcell"@[0] != "menuitem"@[0]);
    }
    assert("group"@ != "menuitem"@) by {
        assert("group"@.len() != "menuitem"@.len());
    }
    assert("heading"@ != "menuitem"@) by {
        assert("heading"@.len() != "menuitem"@.len());
    }
    assert("img"@ != "menuitem"@) by {
        assert("img"@.len() != "menuitem"@.len());
    }
    assert("link"@ != "menuitem"@) by {
        assert("link"@.len() != "menuitem"@.len());
    }
    assert("list"@ != "menuitem"@) by {
        assert("list"@.len() != "menuitem"@.len());
    }
    assert("listbox"@ != "menuitem"@) by {
        assert("listbox"@.len() != "menuitem"@.len());
    }
    assert("listitem"@ != "menuitem"@) by {
        assert("listitem"@[0] != "menuitem"@[0]);
    }
    assert("log"@ != "menuitem"@) by {
        assert("log"@.len() != "menuitem"@.len());
    }
    assert("main"@ != "menuitem"@) by {
        assert("main"@.len() != "menuitem"@.len());
    }
    assert("marquee"@ != "menuitem"@) by {
        assert("marquee"@.len() != "menuitem"@.len());
    }
    assert("math"@ != "menuitem"@) by {
        assert("math"@.len() != "menuitem"@.len());
    }
    assert("menu"@ != "menuitem"@) by {
        assert("menu"@.len() != "menuitem"@.len());
    }
    assert("menubar"@ != "menuitem"@) by {
        assert("menubar"@.len() != "menuitem"@.len());
    }
    assert("menuitemcheckbox"@ != "menuitem"@) by {
        assert("menuitemcheckbox"@.len() != "menuitem"@.len());
    }
    assert("menuitemradio"@ != "menuitem"@) by {
        assert("menuitemradio"@.len() != "menuitem"@.len());
    }
    assert("meter"@ != "menuitem"@) by {
        assert("meter"@.len() != "menuitem"@.len());
    }
    assert("navigation"@ != "menuitem"@) by {
        assert("navigation"@.len() != "menuitem"@.len());
    }
    assert("none"@ != "menuitem"@) by {
        assert("none"@.len() != "menuitem"@.len());
    }
    assert("note"@ != "menuitem"@) by {
        assert("note"@.len() != "menuitem"@.len());
    }
    assert("option"@ != "menuitem"@) by {
        assert("option"@.len() != "menuitem"@.len());
    }
    assert("presentation"@ != "menuitem"@) by {
        assert("presentation"@.len() != "menuitem"@.len());
    }
    assert("progressbar"@ != "menuitem"@) by {
        assert("progressbar"@.len() != "menuitem"@.len());
    }
    assert("radio"@ != "menuitem"@) by {
        assert("radio"@.len() != "menuitem"@.len());
    }
    assert("radiogroup"@ != "menuitem"@) by {
        assert("radiogroup"@.len() != "menuitem"@.len());
    }
    assert("region"@ != "menuitem"@) by {
        assert("region"@.len() != "menuitem"@.len());
    }
    assert("row"@ != "menuitem"@) by {
        assert("row"@.len() != "menuitem"@.len());
    }
    assert("rowgroup"@ != "menuitem"@) by {
        assert("rowgroup"@[0] != "menuitem"@[0]);
    }
    assert("rowheader"@ != "menuitem"@) by {
        assert("rowheader"@.len() != "menuitem"@.len());
    }
    assert("scrollbar"@ != "menuitem"@) by {
        assert("scrollbar"@.len() != "menuitem"@.len());
    }
    assert("search"@ != "menuitem"@) by {
        assert("search"@.len() != "menuitem"@.len());
    }
    assert("searchbox"@ != "menuitem"@) by {
        assert("searchbox"@.len() != "menuitem"@.len());
    }
    assert("separator"@ != "menuitem"@) by {
        assert("separator"@.len() != "menuitem"@.len());
    }
    assert("slider"@ != "menuitem"@) by {
        assert("slider"@.len() != "menuitem"@.len());
    }
    assert("spinbutton"@ != "menuitem"@) by {
        assert("spinbutton"@.len() != "menuitem"@.len());
    }
    assert("status"@ != "menuitem"@) by {
        assert("status"@.len() != "menuitem"@.len());
    }
    assert("switch"@ != "menuitem"@) by {
        assert("switch"@.len() != "menuitem"@.len());
    }
    assert("tab"@ != "menuitem"@) by {
        assert("tab"@.len() != "menuitem"@.len());
    }
    assert("table"@ != "menuitem"@) by {
        assert("table"@.len() != "menuitem"@.len());
    }
    assert("tablist"@ != "menuitem"@) by {
        assert("tablist"@.len() != "menuitem"@.len());
    }
    assert("tabpanel"@ != "menuitem"@) by {
        assert("tabpanel"@[0] != "menuitem"@[0]);
    }
    assert("term"@ != "menuitem"@) by {
        assert("term"@.len() != "menuitem"@.len());
    }
    assert("textbox"@ != "menuitem"@) by {
        assert("textbox"@.len() != "menuitem"@.len());
    }
    assert("timer"@ != "menuitem"@) by {
        assert("timer"@.len() != "menuitem"@.len());
    }
    assert("toolbar"@ != "menuitem"@) by {
        assert("toolbar"@.len() != "menuitem"@.len());
    }
    assert("tooltip"@ != "menuitem"@) by {
        assert("tooltip"@.len() != "menuitem"@.len());
    }
    assert("tree"@ != "menuitem"@) by {
        assert("tree"@.len() != "menuitem"@.len());
    }
    assert("treegrid"@ != "menuitem"@) by {
        assert("treegrid"@[0] != "menuitem"@[0]);
    }
    assert("treeitem"@ != "menuitem"@) by {
        assert("treeitem"@[0] != "menuitem"@[0]);
    }
    assert("command"@ != "menuitem"@) by {
        assert("command"@.len() != "menuitem"@.len());
    }
    assert("composite"@ != "menuitem"@) by {
        assert("composite"@.len() != "menuitem"@.len());
    }
    assert("input"@ != "menuitem"@) by {
        assert("input"@.len() != "menuitem"@.len());
    }
    assert("landmark"@ != "menuitem"@) by {
        assert("landmark"@[0] != "menuitem"@[0]);
    }
    assert("range"@ != "menuitem"@) by {
        assert("range"@.len() != "menuitem"@.len());
    }
    assert("roletype"@ != "menuitem"@) by {
        assert("roletype"@[0] != "menuitem"@[0]);
    }
    assert("section"@ != "menuitem"@) by {
        assert("section"@.len() != "menuitem"@.len());
    }
    assert("sectionhead"@ != "menuitem"@) by {
        assert("sectionhead"@.len() != "menuitem"@.len());
    }
    assert("select"@ != "menuitem"@) by {
        assert("select"@.len() != "menuitem"@.len());
    }
    assert("structure"@ != "menuitem"@) by {
        assert("structure"@.len() != "menuitem"@.len());
    }
    assert("widget"@ != "menuitem"@) by {
        assert("widget"@.len() != "menuitem"@.len());
    }
    assert("window"@ != "menuitem"@) by {
        assert("window"@.len() != "menuitem"@.len());
    }
}

proof fn role_name_unique_menuitemcheckbox(b: Role)
    requires
        b.name_spec() == "menuitemcheckbox"@,
    ensures
        b == Role::MenuItemCheckbox,
{
    reveal_strlit("alert");
    reveal_strlit("alertdialog");
    reveal_strlit("application");
    reveal_strlit("article");
    reveal_strlit("banner");
    reveal_strlit("button");
    reveal_strlit("cell");
    reveal_strlit("checkbox");
    reveal_strlit("columnheader");
    reveal_strlit("combobox");
    reveal_strlit("complementary");
    reveal_strlit("contentinfo");
    reveal_strlit("definition");
    reveal_strlit("dialog");
    reveal_strlit("directory");
    reveal_strlit("document");
    reveal_strlit("feed");
    reveal_strlit("figure");
    reveal_strlit("form");
    reveal_strlit("grid");
    reveal_strlit("gridcell");
    reveal_strlit("group");
    reveal_strlit("heading");
    reveal_strlit("img");
    reveal_strlit("link");
    reveal_strlit("list");
    reveal_strlit("listbox");
    reveal_strlit("listitem");
    reveal_strlit("log");
    reveal_strlit("main");
    reveal_strlit("marquee");
    reveal_strlit("math");
    reveal_strlit("menu");
    reveal_strlit("menubar");
    reveal_strlit("menuitem");
    reveal_strlit("menuitemcheckbox");
    reveal_strlit("menuitemradio");
    reveal_strlit("meter");
    reveal_strlit("navigation");
    reveal_strlit("none");
    reveal_strlit("note");
    reveal_strlit("option");
    reveal_strlit("presentation");
    reveal_strlit("progressbar");
    reveal_strlit("radio");
    reveal_strlit("radiogroup");
    reveal_strlit("region");
    reveal_strlit("row");
    reveal_strlit("rowgroup");
    reveal_strlit("rowheader");
    reveal_strlit("scrollbar");
    reveal_strlit("search");
    reveal_strlit("searchbox");
    reveal_strlit("separator");
    reveal_strlit("slider");
    reveal_strlit("spinbutton");
    reveal_strlit("status");
    reveal_strlit("switch");
    reveal_strlit("tab");
    reveal_strlit("table");
    reveal_strlit("tablist");
    reveal_strlit("tabpanel");
    reveal_strlit("term");
    reveal_strlit("textbox");
    reveal_strlit("timer");
    reveal_strlit("toolbar");
    reveal_strlit("tooltip");
    reveal_strlit("tree");
    reveal_strlit("treegrid");
    reveal_strlit("treeitem");
    reveal_strlit("command");
    reveal_strlit("composite");
    reveal_strlit("input");
    reveal_strlit("landmark");
    reveal_strlit("range");
    reveal_strlit("roletype");
    reveal_strlit("section");
    reveal_strlit("sectionhead");
    reveal_strlit("select");
    reveal_strlit("structure");
    reveal_strlit("widget");
    reveal_strlit("window");
    assert("alert"@ != "menuitemcheckbox"@) by {
        assert("alert"@.len() != "menuitemcheckbox"@.len());
    }
    assert("alertdialog"@ != "menuitemcheckbox"@) by {
        assert("alertdialog"@.len() != "menuitemcheckbox"@.len());
    }
    assert("application"@ != "menuitemcheckbox"@) by {
        assert("application"@.len() != "menuitemcheckbox"@.len());
    }
    assert("article"@ != "menuitemcheckbox"@) by {
        assert("article"@.len() != "menuitemcheckbox"@.len());
    }
    assert("banner"@ != "menuitemcheckbox"@) by {
        assert("banner"@.len() != "menuitemcheckbox"@.len());
    }
    assert("button"@ != "menuitemcheckbox"@) by {
        assert("button"@.len() != "menuitemcheckbox"@.len());
    }
    assert("cell"@ != "menuitemcheckbox"@) by {
        assert("cell"@.len() != "menuitemcheckbox"@.len());
    }
    assert("checkbox"@ != "menuitemcheckbox"@) by {
        assert("checkbox"@.len() != "menuitemcheckbox"@.len());
    }
    assert("columnheader"@ != "menuitemcheckbox"@) by {
        assert("columnheader"@.len() != "menuitemcheckbox"@.len());
    }
    assert("combobox"@ != "menuitemcheckbox"@) by {
        assert("combobox"@.len() != "menuitemcheckbox"@.len());
    }
    assert("complementary"@ != "menuitemcheckbox"@) by {
        assert("complementary"@.len() != "menuitemcheckbox"@.len());
    }
    assert("contentinfo"@ != "menuitemcheckbox"@) by {
        assert("contentinfo"@.len() != "menuitemcheckbox"@.len());
    }
    assert("definition"@ != "menuitemcheckbox"@) by {
        assert("definition"@.len() != "menuitemcheckbox"@.len());
    }
    assert("dialog"@ != "menuitemcheckbox"@) by {
        assert("dialog"@.len() != "menuitemcheckbox"@.len());
    }
    assert("directory"@ != "menuitemcheckbox"@) by {
        assert("directory"@.len() != "menuitemcheckbox"@.len());
    }
    assert("document"@ != "menuitemcheckbox"@) by {
        assert("document"@.len() != "menuitemcheckbox"@.len());
    }
    assert("feed"@ != "menuitemcheckbox"@) by {
        assert("feed"@.len() != "menuitemcheckbox"@.len());
    }
    assert("figure"@ != "menuitemcheckbox"@) by {
        assert("figure"@.len() != "menuitemcheckbox"@.len());
    }
    assert("form"@ != "menuitemcheckbox"@) by {
        assert("form"@.len() != "menuitemcheckbox"@.len());
    }
    assert("grid"@ != "menuitemcheckbox"@) by {
        assert("grid"@.len() != "menuitemcheckbox"@.len());
    }
    assert("gridcell"@ != "menuitemcheckbox"@) by {
        assert("gridcell"@.len() != "menuitemcheckbox"@.len());
    }
    assert("group"@ != "menuitemcheckbox"@) by {
        assert("group"@.len() != "menuitemcheckbox"@.len());
    }
    assert("heading"@ != "menuitemcheckbox"@) by {
        assert("heading"@.len() != "menuitemcheckbox"@.len());
    }
    assert("img"@ != "menuitemcheckbox"@) by {
        assert("img"@.len() != "menuitemcheckbox"@.len());
    }
    assert("link"@ != "menuitemcheckbox"@) by {
        assert("link"@.len() != "menuitemcheckbox"@.len());
    }
    assert("list"@ != "menuitemcheckbox"@) by {
        assert("list"@.len() != "menuitemcheckbox"@.len());
    }
    assert("listbox"@ != "menuitemcheckbox"@) by {
        assert("listbox"@.len() != "menuitemcheckbox"@.len());
    }
    assert("listitem"@ != "menuitemcheckbox"@) by {
        assert("listitem"@.len() != "menuitemcheckbox"@.len());
    }
    assert("log"@ != "menuitemcheckbox"@) by {
        assert("log"@.len() != "menuitemcheckbox"@.len());
    }
    assert("main"@ != "menuitemcheckbox"@) by {
        assert("main"@.len() != "menuitemcheckbox"@.len());
    }
    assert("marquee"@ != "menuitemcheckbox"@) by {
        assert("marquee"@.len() != "menuitemcheckbox"@.len());
    }
    assert("math"@ != "menuitemcheckbox"@) by {
        assert("math"@.len() != "menuitemcheckbox"@.len());
    }
    assert("menu"@ != "menuitemcheckbox"@) by {
        assert("menu"@.len() != "menuitemcheckbox"@.len());
    }
    assert("menubar"@ != "menuitemcheckbox"@) by {
        assert("menubar"@.len() != "menuitemcheckbox"@.len());
    }
    assert("menuitem"@ != "menuitemcheckbox"@) by {
        assert("menuitem"@.len() != "menuitemcheckbox"@.len());
    }
    assert("menuitemradio"@ != "menuitemcheckbox"@) by {
        assert("menuitemradio"@.len() != "menuitemcheckbox"@.len());
    }
    assert("meter"@ != "menuitemcheckbox"@) by {
        assert("meter"@.len() != "menuitemcheckbox"@.len());
    }
    assert("navigation"@ != "menuitemcheckbox"@) by {
        assert("navigation"@.len() != "menuitemcheckbox"@.len());
    }
    assert("none"@ != "menuitemcheckbox"@) by {
        assert("none"@.len() != "menuitemcheckbox"@.len());
    }
    assert("note"@ != "menuitemcheckbox"@) by {
        assert("note"@.len() != "menuitemcheckbox"@.len());
    }
    assert("option"@ != "menuitemcheckbox"@) by {
        assert("option"@.len() != "menuitemcheckbox"@.len());
    }
    assert("presentation"@ != "menuitemcheckbox"@) by {
        assert("presentation"@.len() != "menuitemcheckbox"@.len());
    }
    assert("progressbar"@ != "menuitemcheckbox"@) by {
        assert("progressbar"@.len() != "menuitemcheckbox"@.len());
    }
    assert("radio"@ != "menuitemcheckbox"@) by {
        assert("radio"@.len() != "menuitemcheckbox"@.len());
    }
    assert("radiogroup"@ != "menuitemcheckbox"@) by {
        assert("radiogroup"@.len() != "menuitemcheckbox"@.len());
    }
    assert("region"@ != "menuitemcheckbox"@) by {
        assert("region"@.len() != "menuitemcheckbox"@.len());
    }
    assert("row"@ != "menuitemcheckbox"@) by {
        assert("row"@.len() != "menuitemcheckbox"@.len());
    }
    assert("rowgroup"@ != "menuitemcheckbox"@) by {
        assert("rowgroup"@.len() != "menuitemcheckbox"@.len());
    }
    assert("rowheader"@ != "menuitemcheckbox"@) by {
        assert("rowheader"@.len() != "menuitemcheckbox"@.len());
    }
    assert("scrollbar"@ != "menuitemcheckbox"@) by {
        assert("scrollbar"@.len() != "menuitemcheckbox"@.len());
    }
    assert("search"@ != "menuitemcheckbox"@) by {
        assert("search"@.len() != "menuitemcheckbox"@.len());
    }
    assert("searchbox"@ != "menuitemcheckbox"@) by {
        assert("searchbox"@.len() != "menuitemcheckbox"@.len());
    }
    assert("separator"@ != "menuitemcheckbox"@) by {
        assert("separator"@.len() != "menuitemcheckbox"@.len());
    }
    assert("slider"@ != "menuitemcheckbox"@) by {
        assert("slider"@.len() != "menuitemcheckbox"@.len());
    }
    assert("spinbutton"@ != "menuitemcheckbox"@) by {
        assert("spinbutton"@.len() != "menuitemcheckbox"@.len());
    }
    assert("status"@ != "menuitemcheckbox"@) by {
        assert("status"@.len() != "menuitemcheckbox"@.len());
    }
    assert("switch"@ != "menuitemcheckbox"@) by {
        assert("switch"@.len() != "menuitemcheckbox"@.len());
    }
    assert("tab"@ != "menuitemcheckbox"@) by {
        assert("tab"@.len() != "menuitemcheckbox"@.len());
    }
    assert("table"@ != "menuitemcheckbox"@) by {
        assert("table"@.len() != "menuitemcheckbox"@.len());
    }
    assert("tablist"@ != "menuitemcheckbox"@) by {
        assert("tablist"@.len() != "menuitemcheckbox"@.len());
    }
    assert("tabpanel"@ != "menuitemcheckbox"@) by {
        assert("tabpanel"@.len() != "menuitemcheckbox"@.len());
    }
    assert("term"@ != "menuitemcheckbox"@) by {
        assert("term"@.len() != "menuitemcheckbox"@.len());
    }
    assert("textbox"@ != "menuitemcheckbox"@) by {
        assert("textbox"@.len() != "menuitemcheckbox"@.len());
    }
    assert("timer"@ != "menuitemcheckbox"@) by {
        assert("timer"@.len() != "menuitemcheckbox"@.len());
    }
    assert("toolbar"@ != "menuitemcheckbox"@) by {
        assert("toolbar"@.len() != "menuitemcheckbox"@.len());
    }
    assert("tooltip"@ != "menuitemcheckbox"@) by {
        assert("tooltip"@.len() != "menuitemcheckbox"@.len());
    }
    assert("tree"@ != "menuitemcheckbox"@) by {
        assert("tree"@.len() != "menuitemcheckbox"@.len());
    }
    assert("treegrid"@ != "menuitemcheckbox"@) by {
        assert("treegrid"@.len() != "menuitemcheckbox"@.len());
    }
    assert("treeitem"@ != "menuitemcheckbox"@) by {
        assert("treeitem"@.len() != "menuitemcheckbox"@.len());
    }
    assert("command"@ != "menuitemcheckbox"@) by {
        assert("command"@.len() != "menuitemcheckbox"@.len());
    }
    assert("composite"@ != "menuitemcheckbox"@) by {
        assert("composite"@.len() != "menuitemcheckbox"@.len());
    }
    assert("input"@ != "menuitemcheckbox"@) by {
        assert("input"@.len() != "menuitemcheckbox"@.len());
    }
    assert("landmark"@ != "menuitemcheckbox"@) by {
        assert("landmark"@.len() != "menuitemcheckbox"@.len());
    }
    assert("range"@ != "menuitemcheckbox"@) by {
        assert("range"@.len() != "menuitemcheckbox"@.len());
    }
    assert("roletype"@ != "menuitemcheckbox"@) by {
        assert("roletype"@.len() != "menuitemcheckbox"@.len());
    }
    assert("section"@ != "menuitemcheckbox"@) by {
        assert("section"@.len() != "menuitemcheckbox"@.len());
    }
    assert("sectionhead"@ != "menuitemcheckbox"@) by {
        assert("sectionhead"@.len() != "menuitemcheckbox"@.len());
    }
    assert("select"@ != "menuitemcheckbox"@) by {
        assert("select"@.len() != "menuitemcheckbox"@.len());
    }
    assert("structure"@ != "menuitemcheckbox"@) by {
        assert("structure"@.len() != "menuitemcheckbox"@.len());
    }
    assert("widget"@ != "menuitemcheckbox"@) by {
        assert("widget"@.len() != "menuitemcheckbox"@.len());
    }
    assert("window"@ != "menuitemcheckbox"@) by {
        assert("window"@.len() != "menuitemcheckbox"@.len());
    }
}

proof fn role_name_unique_menuitemradio(b: Role)
    requires
        b.name_spec() == "menuitemradio"@,
    ensures
        b == Role::MenuItemRadio,
{
    reveal_strlit("alert");
    reveal_strlit("alertdialog");
    reveal_strlit("application");
    reveal_strlit("article");
    reveal_strlit("banner");
    reveal_strlit("button");
    reveal_strlit("cell");
    reveal_strlit("checkbox");
    reveal_strlit("columnheader");
    reveal_strlit("combobox");
    reveal_strlit("complementary");
    reveal_strlit("contentinfo");
    reveal_strlit("definition");
    reveal_strlit("dialog");
    reveal_strlit("directory");
    reveal_strlit("document");
    reveal_strlit("feed");
    reveal_strlit("figure");
    reveal_strlit("form");
    reveal_strlit("grid");
    reveal_strlit("gridcell");
    reveal_strlit("group");
    reveal_strlit("heading");
    reveal_strlit("img");
    reveal_strlit("link");
    reveal_strlit("list");
    reveal_strlit("listbox");
    reveal_strlit("listitem");
    reveal_strlit("log");
    reveal_strlit("main");
    reveal_strlit("marquee");
    reveal_strlit("math");
    reveal_strlit("menu");
    reveal_strlit("menubar");
    reveal_strlit("menuitem");
    reveal_strlit("menuitemcheckbox");
    reveal_strlit("menuitemradio");
    reveal_strlit("meter");
    reveal_strlit("navigation");
    reveal_strlit("none");
    reveal_strlit("note");
    reveal_strlit("option");
    reveal_strlit("presentation");
    reveal_strlit("progressbar");
    reveal_strlit("radio");
    reveal_strlit("radiogroup");
    reveal_strlit("region");
    reveal_strlit("row");
    reveal_strlit("rowgroup");
    reveal_strlit("rowheader");
    reveal_strlit("scrollbar");
    reveal_strlit("search");
    reveal_strlit("searchbox");
    reveal_strlit("separator");
    reveal_strlit("slider");
    reveal_strlit("spinbutton");
    reveal_strlit("status");
    reveal_strlit("switch");
    reveal_strlit("tab");
    reveal_strlit("table");
    reveal_strlit("tablist");
    reveal_strlit("tabpanel");
    reveal_strlit("term");
    reveal_strlit("textbox");
    reveal_strlit("timer");
    reveal_strlit("toolbar");
    reveal_strlit("tooltip");
    reveal_strlit("tree");
    reveal_strlit("treegrid");
    reveal_strlit("treeitem");
    reveal_strlit("command");
    reveal_strlit("composite");
    reveal_strlit("input");
    reveal_strlit("landmark");
    reveal_strlit("range");
    reveal_strlit("roletype");
    reveal_strlit("section");
    reveal_strlit("sectionhead");
    reveal_strlit("select");
    reveal_strlit("structure");
    reveal_strlit("widget");
    reveal_strlit("window");
    assert("alert"@ != "menuitemradio"@) by {
        assert("alert"@.len() != "menuitemradio"@.len());
    }
    assert("alertdialog"@ != "menuitemradio"@) by {
        assert("alertdialog"@.len() != "menuitemradio"@.len());
    }
    assert("application"@ != "menuitemradio"@) by {
        assert("application"@.len() != "menuitemradio"@.len());
    }
    assert("article"@ != "menuitemradio"@) by {
        assert("article"@.len() != "menuitemradio"@.len());
    }
    assert("banner"@ != "menuitemradio"@) by {
        assert("banner"@.len() != "menuitemradio"@.len());
    }
    assert("button"@ != "menuitemradio"@) by {
        assert("button"@.len() != "menuitemradio"@.len());
    }
    assert("cell"@ != "menuitemradio"@) by {
        assert("cell"@.len() != "menuitemradio"@.len());
    }
    assert("checkbox"@ != "menuitemradio"@) by {
        assert("checkbox"@.len() != "menuitemradio"@.len());
    }
    assert("columnheader"@ != "menuitemradio"@) by {
        assert("columnheader"@.len() != "menuitemradio"@.len());
    }
    assert("combobox"@ != "menuitemradio"@) by {
        assert("combobox"@.len() != "menuitemradio"@.len());
    }
    assert("complementary"@ != "menuitemradio"@) by {
        assert("complementary"@[0] != "menuitemradio"@[0]);
    }
    assert("contentinfo"@ != "menuitemradio"@) by {
        assert("contentinfo"@.len() != "menuitemradio"@.len());
    }
    assert("definition"@ != "menuitemradio"@) by {
        assert("definition"@.len() != "menuitemradio"@.len());
    }
    assert("dialog"@ != "menuitemradio"@) by {
        assert("dialog"@.len() != "menuitemradio"@.len());
    }
    assert("directory"@ != "menuitemradio"@) by {
        assert("directory"@.len() != "menuitemradio"@.len());
    }
    assert("document"@ != "menuitemradio"@) by {
        assert("document"@.len() != "menuitemradio"@.len());
    }
    assert("feed"@ != "menuitemradio"@) by {
        assert("feed"@.len() != "menuitemradio"@.len());
    }
    assert("figure"@ != "menuitemradio"@) by {
        assert("figure"@.len() != "menuitemradio"@.len());
    }
    assert("form"@ != "menuitemradio"@) by {
        assert("form"@.len() != "menuitemradio"@.len());
    }
    assert("grid"@ != "menuitemradio"@) by {
        assert("grid"@.len() != "menuitemradio"@.len());
    }
    assert("gridcell"@ != "menuitemradio"@) by {
        assert("gridcell"@.len() != "menuitemradio"@.len());
    }
    assert("group"@ != "menuitemradio"@) by {
        assert("group"@.len() != "menuitemradio"@.len());
    }
    assert("heading"@ != "menuitemradio"@) by {
        assert("heading"@.len() != "menuitemradio"@.len());
    }
    assert("img"@ != "menuitemradio"@) by {
        assert("img"@.len() != "menuitemradio"@.len());
    }
    assert("link"@ != "menuitemradio"@) by {
        assert("link"@.len() != "menuitemradio"@.len());
    }
    assert("list"@ != "menuitemradio"@) by {
        assert("list"@.len() != "menuitemradio"@.len());
    }
    assert("listbox"@ != "menuitemradio"@) by {
        assert("listbox"@.len() != "menuitemradio"@.len());
    }
    assert("listitem"@ != "menuitemradio"@) by {
        assert("listitem"@.len() != "menuitemradio"@.len());
    }
    assert("log"@ != "menuitemradio"@) by {
        assert("log"@.len() != "menuitemradio"@.len());
    }
    assert("main"@ != "menuitemradio"@) by {
        assert("main"@.len() != "menuitemradio"@.len());
    }
    assert("marquee"@ != "menuitemradio"@) by {
        assert("marquee"@.len() != "menuitemradio"@.len());
    }
    assert("math"@ != "menuitemradio"@) by {
        assert("math"@.len() != "menuitemradio"@.len());
    }
    assert("menu"@ != "menuitemradio"@) by {
        assert("menu"@.len() != "menuitemradio"@.len());
    }
    assert("menubar"@ != "menuitemradio"@) by {
        assert("menubar"@.len() != "menuitemradio"@.len());
    }
    assert("menuitem"@ != "menuitemradio"@) by {
        assert("menuitem"@.len() != "menuitemradio"@.len());
    }
    assert("menuitemcheckbox"@ != "menuitemradio"@) by {
        assert("menuitemcheckbox"@.len() != "menuitemradio"@.len());
    }
    assert("meter"@ != "menuitemradio"@) by {
        assert("meter"@.len() != "menuitemradio"@.len());
    }
    assert("navigation"@ != "menuitemradio"@) by {
        assert("navigation"@.len() != "menuitemradio"@.len());
    }
    assert("none"@ != "menuitemradio"@) by {
        assert("none"@.len() != "menuitemradio"@.len());
    }
    assert("note"@ != "menuitemradio"@) by {
        assert("note"@.len() != "menuitemradio"@.len());
    }
    assert("option"@ != "menuitemradio"@) by {
        assert("option"@.len() != "menuitemradio"@.len());
    }
    assert("presentation"@ != "menuitemradio"@) by {
        assert("presentation"@.len() != "menuitemradio"@.len());
    }
    assert("progressbar"@ != "menuitemradio"@) by {
        assert("progressbar"@.len() != "menuitemradio"@.len());
    }
    assert("radio"@ != "menuitemradio"@) by {
        assert("radio"@.len() != "menuitemradio"@.len());
    }
    assert("radiogroup"@ != "menuitemradio"@) by {
        assert("radiogroup"@.len() != "menuitemradio"@.len());
    }
    assert("region"@ != "menuitemradio"@) by {
        assert("region"@.len() != "menuitemradio"@.len());
    }
    assert("row"@ != "menuitemradio"@) by {
        assert("row"@.len() != "menuitemradio"@.len());
    }
    assert("rowgroup"@ != "menuitemradio"@) by {
        assert("rowgroup"@.len() != "menuitemradio"@.len());
    }
    assert("rowheader"@ != "menuitemradio"@) by {
        assert("rowheader"@.len() != "menuitemradio"@.len());
    }
    assert("scrollbar"@ != "menuitemradio"@) by {
        assert("scrollbar"@.len() != "menuitemradio"@.len());
    }
    assert("search"@ != "menuitemradio"@) by {
        assert("search"@.len() != "menuitemradio"@.len());
    }
    assert("searchbox"@ != "menuitemradio"@) by {
        assert("searchbox"@.len() != "menuitemradio"@.len());
    }
    assert("separator"@ != "menuitemradio"@) by {
        assert("separator"@.len() != "menuitemradio"@.len());
    }
    assert("slider"@ != "menuitemradio"@) by {
        assert("slider"@.len() != "menuitemradio"@.len());
    }
    assert("spinbutton"@ != "menuitemradio"@) by {
        assert("spinbutton"@.len() != "menuitemradio"@.len());
    }
    assert("status"@ != "menuitemradio"@) by {
        assert("status"@.len() != "menuitemradio"@.len());
    }
    assert("switch"@ != "menuitemradio"@) by {
        assert("switch"@.len() != "menuitemradio"@.len());
    }
    assert("tab"@ != "menuitemradio"@) by {
        assert("tab"@.len() != "menuitemradio"@.len());
    }
    assert("table"@ != "menuitemradio"@) by {
        assert("table"@.len() != "menuitemradio"@.len());
    }
    assert("tablist"@ != "menuitemradio"@) by {
        assert("tablist"@.len() != "menuitemradio"@.len());
    }
    assert("tabpanel"@ != "menuitemradio"@) by {
        assert("tabpanel"@.len() != "menuitemradio"@.len());
    }
    assert("term"@ != "menuitemradio"@) by {
        assert("term"@.len() != "menuitemradio"@.len());
    }
    assert("textbox"@ != "menuitemradio"@) by {
        assert("textbox"@.len() != "menuitemradio"@.len());
    }
    assert("timer"@ != "menuitemradio"@) by {
        assert("timer"@.len() != "menuitemradio"@.len());
    }
    assert("toolbar"@ != "menuitemradio"@) by {
        assert("toolbar"@.len() != "menuitemradio"@.len());
    }
    assert("tooltip"@ != "menuitemradio"@) by {
        assert("tooltip"@.len() != "menuitemradio"@.len());
    }
    assert("tree"@ != "menuitemradio"@) by {
        assert("tree"@.len() != "menuitemradio"@.len());
    }
    assert("treegrid"@ != "menuitemradio"@) by {
        assert("treegrid"@.len() != "menuitemradio"@.len());
    }
    assert("treeitem"@ != "menuitemradio"@) by {
        assert("treeitem"@.len() != "menuitemradio"@.len());
    }
    assert("command"@ != "menuitemradio"@) by {
        assert("command"@.len() != "menuitemradio"@.len());
    }
    assert("composite"@ != "menuitemradio"@) by {
        assert("composite"@.len() != "menuitemradio"@.len());
    }
    assert("input"@ != "menuitemradio"@) by {
        assert("input"@.len() != "menuitemradio"@.len());
    }
    assert("landmark"@ != "menuitemradio"@) by {
        assert("landmark"@.len() != "menuitemradio"@.len());
    }
    assert("range"@ != "menuitemradio"@) by {
        assert("range"@.len() != "menuitemradio"@.len());
    }
    assert("roletype"@ != "menuitemradio"@) by {
        assert("roletype"@.len() != "menuitemradio"@.len());
    }
    assert("section"@ != "menuitemradio"@) by {
        assert("section"@.len() != "menuitemradio"@.len());
    }
    assert("sectionhead"@ != "menuitemradio"@) by {
        assert("sectionhead"@.len() != "menuitemradio"@.len());
    }
    assert("select"@ != "menuitemradio"@) by {
        assert("select"@.len() != "menuitemradio"@.len());
    }
    assert("structure"@ != "menuitemradio"@) by {
        assert("structure"@.len() != "menuitemradio"@.len());
    }
    assert("widget"@ != "menuitemradio"@) by {
        assert("widget"@.len() != "menuitemradio"@.len());
    }
    assert("window"@ != "menuitemradio"@) by {
        assert("window"@.len() != "menuitemradio"@.len());
    }
}

proof fn role_name_unique_meter(b: Role)
    requires
        b.name_spec() == "meter"@,
    ensures
        b == Role::Meter,
{
    reveal_strlit("alert");
    reveal_strlit("alertdialog");
    reveal_strlit("application");
    reveal_strlit("article");
    reveal_strlit("banner");
    reveal_strlit("button");
    reveal_strlit("cell");
    reveal_strlit("checkbox");
    reveal_strlit("columnheader");
    reveal_strlit("combobox");
    reveal_strlit("complementary");
    reveal_strlit("contentinfo");
    reveal_strlit("definition");
    reveal_strlit("dialog");
    reveal_strlit("directory");
    reveal_strlit("document");
    reveal_strlit("feed");
    reveal_strlit("figure");
    reveal_strlit("form");
    reveal_strlit("grid");
    reveal_strlit("gridcell");
    reveal_strlit("group");
    reveal_strlit("heading");
    reveal_strlit("img");
    reveal_strlit("link");
    reveal_strlit("list");
    reveal_strlit("listbox");
    reveal_strlit("listitem");
    reveal_strlit("log");
    reveal_strlit("main");
    reveal_strlit("marquee");
    reveal_strlit("math");
    reveal_strlit("menu");
    reveal_strlit("menubar");
    reveal_strlit("menuitem");
    reveal_strlit("menuitemcheckbox");
    reveal_strlit("menuitemradio");
    reveal_strlit("meter");
    reveal_strlit("navigation");
    reveal_strlit("none");
    reveal_strlit("note");
    reveal_strlit("option");
    reveal_strlit("presentation");
    reveal_strlit("progressbar");
    reveal_strlit("radio");
    reveal_strlit("radiogroup");
    reveal_strlit("region");
    reveal_strlit("row");
    reveal_strlit("rowgroup");
    reveal_strlit("rowheader");
    reveal_strlit("scrollbar");
    reveal_strlit("search");
    reveal_strlit("searchbox");
    reveal_strlit("separator");
    reveal_strlit("slider");
    reveal_strlit("spinbutton");
    reveal_strlit("status");
    reveal_strlit("switch");
    reveal_strlit("tab");
    reveal_strlit("table");
    reveal_strlit("tablist");
    reveal_strlit("tabpanel");
    reveal_strlit("term");
    reveal_strlit("textbox");
    reveal_strlit("timer");
    reveal_strlit("toolbar");
    reveal_strlit("tooltip");
    reveal_strlit("tree");
    reveal_strlit("treegrid");
    reveal_strlit("treeitem");
    reveal_strlit("command");
    reveal_strlit("composite");
    reveal_strlit("input");
    reveal_strlit("landmark");
    reveal_strlit("range");
    reveal_strlit("roletype");
    reveal_strlit("section");
    reveal_strlit("sectionhead");
    reveal_strlit("select");
    reveal_strlit("structure");
    reveal_strlit("widget");
    reveal_strlit("window");
    assert("alert"@ != "meter"@) by {
        assert("alert"@[0] != "meter"@[0]);
    }
    assert("alertdialog"@ != "meter"@) by {
        assert("alertdialog"@.len() != "meter"@.len());
    }
    assert("application"@ != "meter"@) by {
        assert("application"@.len() != "meter"@.len());
    }
    assert("article"@ != "meter"@) by {
        assert("article"@.len() != "meter"@.len());
    }
    assert("banner"@ != "meter"@) by {
        assert("banner"@.len() != "meter"@.len());
    }
    assert("button"@ != "meter"@) by {
        assert("button"@.len() != "meter"@.len());
    }
    assert("cell"@ != "meter"@) by {
        assert("cell"@.len() != "meter"@.len());
    }
    assert("checkbox"@ != "meter"@) by {
        assert("checkbox"@.len() != "meter"@.len());
    }
    assert("columnheader"@ != "meter"@) by {
        assert("columnheader"@.len() != "meter"@.len());
    }
    assert("combobox"@ != "meter"@) by {
        assert("combobox"@.len() != "meter"@.len());
    }
    assert("complementary"@ != "meter"@) by {
        assert("complementary"@.len() != "meter"@.len());
    }
    assert("contentinfo"@ != "meter"@) by {
        assert("contentinfo"@.len() != "meter"@.len());
    }
    assert("definition"@ != "meter"@) by {
        assert("definition"@.len() != "meter"@.len());
    }
    assert("dialog"@ != "meter"@) by {
        assert("dialog"@.len() != "meter"@.len());
    }
    assert("directory"@ != "meter"@) by {
        assert("directory"@.len() != "meter"@.len());
    }
    assert("document"@ != "meter"@) by {
        assert("document"@.len() != "meter"@.len());
    }
    assert("feed"@ != "meter"@) by {
        assert("feed"@.len() != "meter"@.len());
    }
    assert("figure"@ != "meter"@) by {
        assert("figure"@.len() != "meter"@.len());
    }
    assert("form"@ != "meter"@) by {
        assert("form"@.len() != "meter"@.len());
    }
    assert("grid"@ != "meter"@) by {
        assert("grid"@.len() != "meter"@.len());
    }
    assert("gridcell"@ != "meter"@) by {
        assert("gridcell"@.len() != "meter"@.len());
    }
    assert("group"@ != "meter"@) by {
        assert("group"@[0] != "meter"@[0]);
    }
    assert("heading"@ != "meter"@) by {
        assert("heading"@.len() != "meter"@.len());
    }
    assert("img"@ != "meter"@) by {
        assert("img"@.len() != "meter"@.len());
    }
    assert("link"@ != "meter"@) by {
        assert("link"@.len() != "meter"@.len());
    }
    assert("list"@ != "meter"@) by {
        assert("list"@.len() != "meter"@.len());
    }
    assert("listbox"@ != "meter"@) by {
        assert("listbox"@.len() != "meter"@.len());
    }
    assert("listitem"@ != "meter"@) by {
        assert("listitem"@.len() != "meter"@.len());
    }
    assert("log"@ != "meter"@) by {
        assert("log"@.len() != "meter"@.len());
    }
    assert("main"@ != "meter"@) by {
        assert("main"@.len() != "meter"@.len());
    }
    assert("marquee"@ != "meter"@) by {
        assert("marquee"@.len() != "meter"@.len());
    }
    assert("math"@ != "meter"@) by {
        assert("math"@.len() != "meter"@.len());
    }
    assert("menu"@ != "meter"@) by {
        assert("menu"@.len() != "meter"@.len());
    }
    assert("menubar"@ != "meter"@) by {
        assert("menubar"@.len() != "meter"@.len());
    }
    assert("menuitem"@ != "meter"@) by {
        assert("menuitem"@.len() != "meter"@.len());
    }
    assert("menuitemcheckbox"@ != "meter"@) by {
        assert("menuitemcheckbox"@.len() != "meter"@.len());
    }
    assert("menuitemradio"@ != "meter"@) by {
        assert("menuitemradio"@.len() != "meter"@.len());
    }
    assert("navigation"@ != "meter"@) by {
        assert("navigation"@.len() != "meter"@.len());
    }
    assert("none"@ != "meter"@) by {
        assert("none"@.len() != "meter"@.len());
    }
    assert("note"@ != "meter"@) by {
        assert("note"@.len() != "meter"@.len());
    }
    assert("option"@ != "meter"@) by {
        assert("option"@.len() != "meter"@.len());
    }
    assert("presentation"@ != "meter"@) by {
        assert("presentation"@.len() != "meter"@.len());
    }
    assert("progressbar"@ != "meter"@) by {
        assert("progressbar"@.len() != "meter"@.len());
    }
    assert("radio"@ != "meter"@) by {
        assert("radio"@[0] != "meter"@[0]);
    }
    assert("radiogroup"@ != "meter"@) by {
        assert("radiogroup"@.len() != "meter"@.len());
    }
    assert("region"@ != "meter"@) by {
        assert("region"@.len() != "meter"@.len());
    }
    assert("row"@ != "meter"@) by {
        assert("row"@.len() != "meter"@.len());
    }
    assert("rowgroup"@ != "meter"@) by {
        assert("rowgroup"@.len() != "meter"@.len());
    }
    assert("rowheader"@ != "meter"@) by {
        assert("rowheader"@.len() != "meter"@.len());
    }
    assert("scrollbar"@ != "meter"@) by {
        assert("scrollbar"@.len() != "meter"@.len());
    }
    assert("search"@ != "meter"@) by {
        assert("search"@.len() != "meter"@.len());
    }
    assert("searchbox"@ != "meter"@) by {
        assert("searchbox"@.len() != "meter"@.len());
    }
    assert("separator"@ != "meter"@) by {
        assert("separator"@.len() != "meter"@.len());
    }
    assert("slider"@ != "meter"@) by {
        assert("slider"@.len() != "meter"@.len());
    }
    assert("spinbutton"@ != "meter"@) by {
        assert("spinbutton"@.len() != "meter"@.len());
    }
    assert("status"@ != "meter"@) by {
        assert("status"@.len() != "meter"@.len());
    }
    assert("switch"@ != "meter"@) by {
        assert("switch"@.len() != "meter"@.len());
    }
    assert("tab"@ != "meter"@) by {
        assert("tab"@.len() != "meter"@.len());
    }
    assert("table"@ != "meter"@) by {
        assert("table"@[0] != "meter"@[0]);
    }
    assert("tablist"@ != "meter"@) by {
        assert("tablist"@.len() != "meter"@.len());
    }
    assert("tabpanel"@ != "meter"@) by {
        assert("tabpanel"@.len() != "meter"@.len());
    }
    assert("term"@ != "meter"@) by {
        assert("term"@.len() != "meter"@.len());
    }
    assert("textbox"@ != "meter"@) by {
        assert("textbox"@.len() != "meter"@.len());
    }
    assert("timer"@ != "meter"@) by {
        assert("timer"@[0] != "meter"@[0]);
    }
    assert("toolbar"@ != "meter"@) by {
        assert("toolbar"@.len() != "meter"@.len());
    }
    assert("tooltip"@ != "meter"@) by {
        assert("tooltip"@.len() != "meter"@.len());
    }
    assert("tree"@ != "meter"@) by {
        assert("tree"@.len() != "meter"@.len());
    }
    assert("treegrid"@ != "meter"@) by {
        assert("treegrid"@.len() != "meter"@.len());
    }
    assert("treeitem"@ != "meter"@) by {
        assert("treeitem"@.len() != "meter"@.len());
    }
    assert("command"@ != "meter"@) by {
        assert("command"@.len() != "meter"@.len());
    }
    assert("composite"@ != "meter"@) by {
        assert("composite"@.len() != "meter"@.len());
    }
    assert("input"@ != "meter"@) by {
        assert("input"@[0] != "meter"@[0]);
    }
    assert("landmark"@ != "meter"@) by {
        assert("landmark"@.len() != "meter"@.len());
    }
    assert("range"@ != "meter"@) by {
        assert("range"@[0] != "meter"@[0]);
    }
    assert("roletype"@ != "meter"@) by {
        assert("roletype"@.len() != "meter"@.len());
    }
    assert("section"@ != "meter"@) by {
        assert("section"@.len() != "meter"@.len());
    }
    assert("sectionhead"@ != "meter"@) by {
        assert("sectionhead"@.len() != "meter"@.len());
    }
    assert("select"@ != "meter"@) by {
        assert("select"@.len() != "meter"@.len());
    }
    assert("structure"@ != "meter"@) by {
        assert("structure"@.len() != "meter"@.len());
    }
    assert("widget"@ != "meter"@) by {
        assert("widget"@.len() != "meter"@.len());
    }
    assert("window"@ != "meter"@) by {
        assert("window"@.len() != "meter"@.len());
    }
}

proof fn role_name_unique_navigation(b: Role)
    requires
        b.name_spec() == "navigation"@,
    ensures
        b == Role::Navigation,
{
    reveal_strlit("alert");
    reveal_strlit("alertdialog");
    reveal_strlit("application");
    reveal_strlit("article");
    reveal_strlit("banner");
    reveal_strlit("button");
    reveal_strlit("cell");
    reveal_strlit("checkbox");
    reveal_strlit("columnheader");
    reveal_strlit("combobox");
    reveal_strlit("complementary");
    reveal_strlit("contentinfo");
    reveal_strlit("definition");
    reveal_strlit("dialog");
    reveal_strlit("directory");
    reveal_strlit("document");
    reveal_strlit("feed");
    reveal_strlit("figure");
    reveal_strlit("form");
    reveal_strlit("grid");
    reveal_strlit("gridcell");
    reveal_strlit("group");
    reveal_strlit("heading");
    reveal_strlit("img");
    reveal_strlit("link");
    reveal_strlit("list");
    reveal_strlit("listbox");
    reveal_strlit("listitem");
    reveal_strlit("log");
    reveal_strlit("main");
    reveal_strlit("marquee");
    reveal_strlit("math");
    reveal_strlit("menu");
    reveal_strlit("menubar");
    reveal_strlit("menuitem");
    reveal_strlit("menuitemcheckbox");
    reveal_strlit("menuitemradio");
    reveal_strlit("meter");
    reveal_strlit("navigation");
    reveal_strlit("none");
    reveal_strlit("note");
    reveal_strlit("option");
    reveal_strlit("presentation");
    reveal_strlit("progressbar");
    reveal_strlit("radio");
    reveal_strlit("radiogroup");
    reveal_strlit("region");
    reveal_strlit("row");
    reveal_strlit("rowgroup");
    reveal_strlit("rowheader");
    reveal_strlit("scrollbar");
    reveal_strlit("search");
    reveal_strlit("searchbox");
    reveal_strlit("separator");
    reveal_strlit("slider");
    reveal_strlit("spinbutton");
    reveal_strlit("status");
    reveal_strlit("switch");
    reveal_strlit("tab");
    reveal_strlit("table");
    reveal_strlit("tablist");
    reveal_strlit("tabpanel");
    reveal_strlit("term");
    reveal_strlit("textbox");
    reveal_strlit("timer");
    reveal_strlit("toolbar");
    reveal_strlit("tooltip");
    reveal_strlit("tree");
    reveal_strlit("treegrid");
    reveal_strlit("treeitem");
    reveal_strlit("command");
    reveal_strlit("composite");
    reveal_strlit("input");
    reveal_strlit("landmark");
    reveal_strlit("range");
    reveal_strlit("roletype");
    reveal_strlit("section");
    reveal_strlit("sectionhead");
    reveal_strlit("select");
    reveal_strlit("structure");
    reveal_strlit("widget");
    reveal_strlit("window");
    assert("alert"@ != "navigation"@) by {
        assert("alert"@.len() != "navigation"@.len());
    }
    assert("alertdialog"@ != "navigation"@) by {
        assert("alertdialog"@.len() != "navigation"@.len());
    }
    assert("application"@ != "navigation"@) by {
        assert("application"@.len() != "navigation"@.len());
    }
    assert("article"@ != "navigation"@) by {
        assert("article"@.len() != "navigation"@.len());
    }
    assert("banner"@ != "navigation"@) by {
        assert("banner"@.len() != "navigation"@.len());
    }
    assert("button"@ != "navigation"@) by {
        assert("button"@.len() != "navigation"@.len());
    }
    assert("cell"@ != "navigation"@) by {
        assert("cell"@.len() != "navigation"@.len());
    }
    assert("checkbox"@ != "navigation"@) by {
        assert("checkbox"@.len() != "navigation"@.len());
    }
    assert("columnheader"@ != "navigation"@) by {
        assert("columnheader"@.len() != "navigation"@.len());
    }
    assert("combobox"@ != "navigation"@) by {
        assert("combobox"@.len() != "navigation"@.len());
    }
    assert("complementary"@ != "navigation"@) by {
        assert("complementary"@.len() != "navigation"@.len());
    }
    assert("contentinfo"@ != "navigation"@) by {
        assert("contentinfo"@.len() != "navigation"@.len());
    }
    assert("definition"@ != "navigation"@) by {
        assert("definition"@[0] != "navigation"@[0]);
    }
    assert("dialog"@ != "navigation"@) by {
        assert("dialog"@.len() != "navigation"@.len());
    }
    assert("directory"@ != "navigation"@) by {
        assert("directory"@.len() != "navigation"@.len());
    }
    assert("document"@ != "navigation"@) by {
        assert("document"@.len() != "navigation"@.len());
    }
    assert("feed"@ != "navigation"@) by {
        assert("feed"@.len() != "navigation"@.len());
    }
    assert("figure"@ != "navigation"@) by {
        assert("figure"@.len() != "navigation"@.len());
    }
    assert("form"@ != "navigation"@) by {
        assert("form"@.len() != "navigation"@.len());
    }
    assert("grid"@ != "navigation"@) by {
        assert("grid"@.len() != "navigation"@.len());
    }
    assert("gridcell"@ != "navigation"@) by {
        assert("gridcell"@.len() != "navigation"@.len());
    }
    assert("group"@ != "navigation"@) by {
        assert("group"@.len() != "navigation"@.len());
    }
    assert("heading"@ != "navigation"@) by {
        assert("heading"@.len() != "navigation"@.len());
    }
    assert("img"@ != "navigation"@) by {
        assert("img"@.len() != "navigation"@.len());
    }
    assert("link"@ != "navigation"@) by {
        assert("link"@.len() != "navigation"@.len());
    }
    assert("list"@ != "navigation"@) by {
        assert("list"@.len() != "navigation"@.len());
    }
    assert("listbox"@ != "navigation"@) by {
        assert("listbox"@.len() != "navigation"@.len());
    }
    assert("listitem"@ != "navigation"@) by {
        assert("listitem"@.len() != "navigation"@.len());
    }
    assert("log"@ != "navigation"@) by {
        assert("log"@.len() != "navigation"@.len());
    }
    assert("main"@ != "navigation"@) by {
        assert("main"@.len() != "navigation"@.len());
    }
    assert("marquee"@ != "navigation"@) by {
        assert("marquee"@.len() != "navigation"@.len());
    }
    assert("math"@ != "navigation"@) by {
        assert("math"@.len() != "navigation"@.len());
    }
    assert("menu"@ != "navigation"@) by {
        assert("menu"@.len() != "navigation"@.len());
    }
    assert("menubar"@ != "navigation"@) by {
        assert("menubar"@.len() != "navigation"@.len());
    }
    assert("menuitem"@ != "navigation"@) by {
        assert("menuitem"@.len() != "navigation"@.len());
    }
    assert("menuitemcheckbox"@ != "navigation"@) by {
        assert("menuitemcheckbox"@.len() != "navigation"@.len());
    }
    assert("menuitemradio"@ != "navigation"@) by {
        assert("menuitemradio"@.len() != "navigation"@.len());
    }
    assert("meter"@ != "navigation"@) by {
        assert("meter"@.len() != "navigation"@.len());
    }
    assert("none"@ != "navigation"@) by {
        assert("none"@.len() != "navigation"@.len());
    }
    assert("note"@ != "navigation"@) by {
        assert("note"@.len() != "navigation"@.len());
    }
    assert("option"@ != "navigation"@) by {
        assert("option"@.len() != "navigation"@.len());
    }
    assert("presentation"@ != "navigation"@) by {
        assert("presentation"@.len() != "navigation"@.len());
    }
    assert("progressbar"@ != "navigation"@) by {
        assert("progressbar"@.len() != "navigation"@.len());
    }
    assert("radio"@ != "navigation"@) by {
        assert("radio"@.len() != "navigation"@.len());
    }
    assert("radiogroup"@ != "navigation"@) by {
        assert("radiogroup"@[0] != "navigation"@[0]);
    }
    assert("region"@ != "navigation"@) by {
        assert("region"@.len() != "navigation"@.len());
    }
    assert("row"@ != "navigation"@) by {
        assert("row"@.len() != "navigation"@.len());
    }
    assert("rowgroup"@ != "navigation"@) by {
        assert("rowgroup"@.len() != "navigation"@.len());
    }
    assert("rowheader"@ != "navigation"@) by {
        assert("rowheader"@.len() != "navigation"@.len());
    }
    assert("scrollbar"@ != "navigation"@) by {
        assert("scrollbar"@.len() != "navigation"@.len());
    }
    assert("search"@ != "navigation"@) by {
        assert("search"@.len() != "navigation"@.len());
    }
    assert("searchbox"@ != "navigation"@) by {
        assert("searchbox"@.len() != "navigation"@.len());
    }
    assert("separator"@ != "navigation"@) by {
        assert("separator"@.len() != "navigation"@.len());
    }
    assert("slider"@ != "navigation"@) by {
        assert("slider"@.len() != "navigation"@.len());
    }
    assert("spinbutton"@ != "navigation"@) by {
        assert("spinbutton"@[0] != "navigation"@[0]);
    }
    assert("status"@ != "navigation"@) by {
        assert("status"@.len() != "navigation"@.len());
    }
    assert("switch"@ != "navigation"@) by {
        assert("switch"@.len() != "navigation"@.len());
    }
    assert("tab"@ != "navigation"@) by {
        assert("tab"@.len() != "navigation"@.len());
    }
    assert("table"@ != "navigation"@) by {
        assert("table"@.len() != "navigation"@.len());
    }
    assert("tablist"@ != "navigation"@) by {
        assert("tablist"@.len() != "navigation"@.len());
    }
    assert("tabpanel"@ != "navigation"@) by {
        assert("tabpanel"@.len() != "navigation"@.len());
    }
    assert("term"@ != "navigation"@) by {
        assert("term"@.len() != "navigation"@.len());
    }
    assert("textbox"@ != "navigation"@) by {
        assert("textbox"@.len() != "navigation"@.len());
    }
    assert("timer"@ != "navigation"@) by {
        assert("timer"@.len() != "navigation"@.len());
    }
    assert("toolbar"@ != "navigation"@) by {
        assert("toolbar"@.len() != "navigation"@.len());
    }
    assert("tooltip"@ != "navigation"@) by {
        assert("tooltip"@.len() != "navigation"@.len());
    }
    assert("tree"@ != "navigation"@) by {
        assert("tree"@.len() != "navigation"@.len());
    }
    assert("treegrid"@ != "navigation"@) by {
        assert("treegrid"@.len() != "navigation"@.len());
    }
    assert("treeitem"@ != "navigation"@) by {
        assert("treeitem"@.len() != "navigation"@.len());
    }
    assert("command"@ != "navigation"@) by {
        assert("command"@.len() != "navigation"@.len());
    }
    assert("composite"@ != "navigation"@) by {
        assert("composite"@.len() != "navigation"@.len());
    }
    assert("input"@ != "navigation"@) by {
        assert("input"@.len() != "navigation"@.len());
    }
    assert("landmark"@ != "navigation"@) by {
        assert("landmark"@.len() != "navigation"@.len());
    }
    assert("range"@ != "navigation"@) by {
        assert("range"@.len() != "navigation"@.len());
    }
    assert("roletype"@ != "navigation"@) by {
        assert("roletype"@.len() != "navigation"@.len());
    }
    assert("section"@ != "navigation"@) by {
        assert("section"@.len() != "navigation"@.len());
    }
    assert("sectionhead"@ != "navigation"@) by {
        assert("sectionhead"@.len() != "navigation"@.len());
    }
    assert("select"@ != "navigation"@) by {
        assert("select"@.len() != "navigation"@.len());
    }
    assert("structure"@ != "navigation"@) by {
        assert("structure"@.len() != "navigation"@.len());
    }
    assert("widget"@ != "navigation"@) by {
        assert("widget"@.len() != "navigation"@.len());
    }
    assert("window"@ != "navigation"@) by {
        assert("window"@.len() != "navigation"@.len());
    }
}

proof fn role_name_unique_none(b: Role)
    requires
        b.name_spec() == "none"@,
    ensures
        b == Role::NoneRole,
{
    reveal_strlit("alert");
    reveal_strlit("alertdialog");
    reveal_strlit("application");
    reveal_strlit("article");
    reveal_strlit("banner");
    reveal_strlit("button");
    reveal_strlit("cell");
    reveal_strlit("checkbox");
    reveal_strlit("columnheader");
    reveal_strlit("combobox");
    reveal_strlit("complementary");
    reveal_strlit("contentinfo");
    reveal_strlit("definition");
    reveal_strlit("dialog");
    reveal_strlit("directory");
    reveal_strlit("document");
    reveal_strlit("feed");
    reveal_strlit("figure");
    reveal_strlit("form");
    reveal_strlit("grid");
    reveal_strlit("gridcell");
    reveal_strlit("group");
    reveal_strlit("heading");
    reveal_strlit("img");
    reveal_strlit("link");
    reveal_strlit("list");
    reveal_strlit("listbox");
    reveal_strlit("listitem");
    reveal_strlit("log");
    reveal_strlit("main");
    reveal_strlit("marquee");
    reveal_strlit("math");
    reveal_strlit("menu");
    reveal_strlit("menubar");
    reveal_strlit("menuitem");
    reveal_strlit("menuitemcheckbox");
    reveal_strlit("menuitemradio");
    reveal_strlit("meter");
    reveal_strlit("navigation");
    reveal_strlit("none");
    reveal_strlit("note");
    reveal_strlit("option");
    reveal_strlit("presentation");
    reveal_strlit("progressbar");
    reveal_strlit("radio");
    reveal_strlit("radiogroup");
    reveal_strlit("region");
    reveal_strlit("row");
    reveal_strlit("rowgroup");
    reveal_strlit("rowheader");
    reveal_strlit("scrollbar");
    reveal_strlit("search");
    reveal_strlit("searchbox");
    reveal_strlit("separator");
    reveal_strlit("slider");
    reveal_strlit("spinbutton");
    reveal_strlit("status");
    reveal_strlit("switch");
    reveal_strlit("tab");
    reveal_strlit("table");
    reveal_strlit("tablist");
    reveal_strlit("tabpanel");
    reveal_strlit("term");
    reveal_strlit("textbox");
    reveal_strlit("timer");
    reveal_strlit("toolbar");
    reveal_strlit("tooltip");
    reveal_strlit("tree");
    reveal_strlit("treegrid");
    reveal_strlit("treeitem");
    reveal_strlit("command");
    reveal_strlit("composite");
    reveal_strlit("input");
    reveal_strlit("landmark");
    reveal_strlit("range");
    reveal_strlit("roletype");
    reveal_strlit("section");
    reveal_strlit("sectionhead");
    reveal_strlit("select");
    reveal_strlit("structure");
    reveal_strlit("widget");
    reveal_strlit("window");
    assert("alert"@ != "none"@) by {
        assert("alert"@.len() != "none"@.len());
    }
    assert("alertdialog"@ != "none"@) by {
        assert("alertdialog"@.len() != "none"@.len());
    }
    assert("application"@ != "none"@) by {
        assert("application"@.len() != "none"@.len());
    }
    assert("article"@ != "none"@) by {
        assert("article"@.len() != "none"@.len());
    }
    assert("banner"@ != "none"@) by {
        assert("banner"@.len() != "none"@.len());
    }
    assert("button"@ != "none"@) by {
        assert("button"@.len() != "none"@.len());
    }
    assert("cell"@ != "none"@) by {
        assert("cell"@[0] != "none"@[0]);
    }
    assert("checkbox"@ != "none"@) by {
        assert("checkbox"@.len() != "none"@.len());
    }
    assert("columnheader"@ != "none"@) by {
        assert("columnheader"@.len() != "none"@.len());
    }
    assert("combobox"@ != "none"@) by {
        assert("combobox"@.len() != "none"@.len());
    }
    assert("complementary"@ != "none"@) by {
        assert("complementary"@.len() != "none"@.len());
    }
    assert("contentinfo"@ != "none"@) by {
        assert("contentinfo"@.len() != "none"@.len());
    }
    assert("definition"@ != "none"@) by {
        assert("definition"@.len() != "none"@.len());
    }
    assert("dialog"@ != "none"@) by {
        assert("dialog"@.len() != "none"@.len());
    }
    assert("directory"@ != "none"@) by {
        assert("directory"@.len() != "none"@.len());
    }
    assert("document"@ != "none"@) by {
        assert("document"@.len() != "none"@.len());
    }
    assert("feed"@ != "none"@) by {
        assert("feed"@[0] != "none"@[0]);
    }
    assert("figure"@ != "none"@) by {
        assert("figure"@.len() != "none"@.len());
    }
    assert("form"@ != "none"@) by {
        assert("form"@[0] != "none"@[0]);
    }
    assert("grid"@ != "none"@) by {
        assert("grid"@[0] != "none"@[0]);
    }
    assert("gridcell"@ != "none"@) by {
        assert("gridcell"@.len() != "none"@.len());
    }
    assert("group"@ != "none"@) by {
        assert("group"@.len() != "none"@.len());
    }
    assert("heading"@ != "none"@) by {
        assert("heading"@.len() != "none"@.len());
    }
    assert("img"@ != "none"@) by {
        assert("img"@.len() != "none"@.len());
    }
    assert("link"@ != "none"@) by {
        assert("link"@[0] != "none"@[0]);
    }
    assert("list"@ != "none"@) by {
        assert("list"@[0] != "none"@[0]);
    }
    assert("listbox"@ != "none"@) by {
        assert("listbox"@.len() != "none"@.len());
    }
    assert("listitem"@ != "none"@) by {
        assert("listitem"@.len() != "none"@.len());
    }
    assert("log"@ != "none"@) by {
        assert("log"@.len() != "none"@.len());
    }
    assert("main"@ != "none"@) by {
        assert("main"@[0] != "none"@[0]);
    }
    assert("marquee"@ != "none"@) by {
        assert("marquee"@.len() != "none"@.len());
    }
    assert("math"@ != "none"@) by {
        assert("math"@[0] != "none"@[0]);
    }
    assert("menu"@ != "none"@) by {
        assert("menu"@[0] != "none"@[0]);
    }
    assert("menubar"@ != "none"@) by {
        assert("menubar"@.len() != "none"@.len());
    }
    assert("menuitem"@ != "none"@) by {
        assert("menuitem"@.len() != "none"@.len());
    }
    assert("menuitemcheckbox"@ != "none"@) by {
        assert("menuitemcheckbox"@.len() != "none"@.len());
    }
    assert("menuitemradio"@ != "none"@) by {
        assert("menuitemradio"@.len() != "none"@.len());
    }
    assert("meter"@ != "none"@) by {
        assert("meter"@.len() != "none"@.len());
    }
    assert("navigation"@ != "none"@) by {
        assert("navigation"@.len() != "none"@.len());
    }
    assert("note"@ != "none"@) by {
        assert("note"@[2] != "none"@[2]);
    }
    assert("option"@ != "none"@) by {
        assert("option"@.len() != "none"@.len());
    }
    assert("presentation"@ != "none"@) by {
        assert("presentation"@.len() != "none"@.len());
    }
    assert("progressbar"@ != "none"@) by {
        assert("progressbar"@.len() != "none"@.len());
    }
    assert("radio"@ != "none"@) by {
        assert("radio"@.len() != "none"@.len());
    }
    assert("radiogroup"@ != "none"@) by {
        assert("radiogroup"@.len() != "none"@.len());
    }
    assert("region"@ != "none"@) by {
        assert("region"@.len() != "none"@.len());
    }
    assert("row"@ != "none"@) by {
        assert("row"@.len() != "none"@.len());
    }
    assert("rowgroup"@ != "none"@) by {
        assert("rowgroup"@.len() != "none"@.len());
    }
    assert("rowheader"@ != "none"@) by {
        assert("rowheader"@.len() != "none"@.len());
    }
    assert("scrollbar"@ != "none"@) by {
        assert("scrollbar"@.len() != "none"@.len());
    }
    assert("search"@ != "none"@) by {
        assert("search"@.len() != "none"@.len());
    }
    assert("searchbox"@ != "none"@) by {
        assert("searchbox"@.len() != "none"@.len());
    }
    assert("separator"@ != "none"@) by {
        assert("separator"@.len() != "none"@.len());
    }
    assert("slider"@ != "none"@) by {
        assert("slider"@.len() != "none"@.len());
    }
    assert("spinbutton"@ != "none"@) by {
        assert("spinbutton"@.len() != "none"@.len());
    }
    assert("status"@ != "none"@) by {
        assert("status"@.len() != "none"@.len());
    }
    assert("switch"@ != "none"@) by {
        assert("switch"@.len() != "none"@.len());
    }
    assert("tab"@ != "none"@) by {
        assert("tab"@.len() != "none"@.len());
    }
    assert("table"@ != "none"@) by {
        assert("table"@.len() != "none"@.len());
    }
    assert("tablist"@ != "none"@) by {
        assert("tablist"@.len() != "none"@.len());
    }
    assert("tabpanel"@ != "none"@) by {
        assert("tabpanel"@.len() != "none"@.len());
    }
    assert("term"@ != "none"@) by {
        assert("term"@[0] != "none"@[0]);
    }
    assert("textbox"@ != "none"@) by {
        assert("textbox"@.len() != "none"@.len());
    }
    assert("timer"@ != "none"@) by {
        assert("timer"@.len() != "none"@.len());
    }
    assert("toolbar"@ != "none"@) by {
        assert("toolbar"@.len() != "none"@.len());
    }
    assert("tooltip"@ != "none"@) by {
        assert("tooltip"@.len() != "none"@.len());
    }
    assert("tree"@ != "none"@) by {
        assert("tree"@[0] != "none"@[0]);
    }
    assert("treegrid"@ != "none"@) by {
        assert("treegrid"@.len() != "none"@.len());
    }
    assert("treeitem"@ != "none"@) by {
        assert("treeitem"@.len() != "none"@.len());
    }
    assert("command"@ != "none"@) by {
        assert("command"@.len() != "none"@.len());
    }
    assert("composite"@ != "none"@) by {
        assert("composite"@.len() != "none"@.len());
    }
    assert("input"@ != "none"@) by {
        assert("input"@.len() != "none"@.len());
    }
    assert("landmark"@ != "none"@) by {
        assert("landmark"@.len() != "none"@.len());
    }
    assert("range"@ != "none"@) by {
        assert("range"@.len() != "none"@.len());
    }
    assert("roletype"@ != "none"@) by {
        assert("roletype"@.len() != "none"@.len());
    }
    assert("section"@ != "none"@) by {
        assert("section"@.len() != "none"@.len());
    }
    assert("sectionhead"@ != "none"@) by {
        assert("sectionhead"@.len() != "none"@.len());
    }
    assert("select"@ != "none"@) by {
        assert("select"@.len() != "none"@.len());
    }
    assert("structure"@ != "none"@) by {
        assert("structure"@.len() != "none"@.len());
    }
    assert("widget"@ != "none"@) by {
        assert("widget"@.len() != "none"@.len());
    }
    assert("window"@ != "none"@) by {
        assert("window"@.len() != "none"@.len());
    }
}

proof fn role_name_unique_note(b: Role)
    requires
        b.name_spec() == "note"@,
    ensures
        b == Role::Note,
{
    reveal_strlit("alert");
    reveal_strlit("alertdialog");
    reveal_strlit("application");
    reveal_strlit("article");
    reveal_strlit("banner");
    reveal_strlit("button");
    reveal_strlit("cell");
    reveal_strlit("checkbox");
    reveal_strlit("columnheader");
    reveal_strlit("combobox");
    reveal_strlit("complementary");
    reveal_strlit("contentinfo");
    reveal_strlit("definition");
    reveal_strlit("dialog");
    reveal_strlit("directory");
    reveal_strlit("document");
    reveal_strlit("feed");
    reveal_strlit("figure");
    reveal_strlit("form");
    reveal_strlit("grid");
    reveal_strlit("gridcell");
    reveal_strlit("group");
    reveal_strlit("heading");
    reveal_strlit("img");
    reveal_strlit("link");
    reveal_strlit("list");
    reveal_strlit("listbox");
    reveal_strlit("listitem");
    reveal_strlit("log");
    reveal_strlit("main");
    reveal_strlit("marquee");
    reveal_strlit("math");
    reveal_strlit("menu");
    reveal_strlit("menubar");
    reveal_strlit("menuitem");
    reveal_strlit("menuitemcheckbox");
    reveal_strlit("menuitemradio");
    reveal_strlit("meter");
    reveal_strlit("navigation");
    reveal_strlit("none");
    reveal_strlit("note");
    reveal_strlit("option");
    reveal_strlit("presentation");
    reveal_strlit("progressbar");
    reveal_strlit("radio");
    reveal_strlit("radiogroup");
    reveal_strlit("region");
    reveal_strlit("row");
    reveal_strlit("rowgroup");
    reveal_strlit("rowheader");
    reveal_strlit("scrollbar");
    reveal_strlit("search");
    reveal_strlit("searchbox");
    reveal_strlit("separator");
    reveal_strlit("slider");
    reveal_strlit("spinbutton");
    reveal_strlit("status");
    reveal_strlit("switch");
    reveal_strlit("tab");
    reveal_strlit("table");
    reveal_strlit("tablist");
    reveal_strlit("tabpanel");
    reveal_strlit("term");
    reveal_strlit("textbox");
    reveal_strlit("timer");
    reveal_strlit("toolbar");
    reveal_strlit("tooltip");
    reveal_strlit("tree");
    reveal_strlit("treegrid");
    reveal_strlit("treeitem");
    reveal_strlit("command");
    reveal_strlit("composite");
    reveal_strlit("input");
    reveal_strlit("landmark");
    reveal_strlit("range");
    reveal_strlit("roletype");
    reveal_strlit("section");
    reveal_strlit("sectionhead");
    reveal_strlit("select");
    reveal_strlit("structure");
    reveal_strlit("widget");
    reveal_strlit("window");
    assert("alert"@ != "note"@) by {
        assert("alert"@.len() != "note"@.len());
    }
    assert("alertdialog"@ != "note"@) by {
        assert("alertdialog"@.len() != "note"@.len());
    }
    assert("application"@ != "note"@) by {
        assert("application"@.len() != "note"@.len());
    }
    assert("article"@ != "note"@) by {
        assert("article"@.len() != "note"@.len());
    }
    assert("banner"@ != "note"@) by {
        assert("banner"@.len() != "note"@.len());
    }
    assert("button"@ != "note"@) by {
        assert("button"@.len() != "note"@.len());
    }
    assert("cell"@ != "note"@) by {
        assert("cell"@[0] != "note"@[0]);
    }
    assert("checkbox"@ != "note"@) by {
        assert("checkbox"@.len() != "note"@.len());
    }
    assert("columnheader"@ != "note"@) by {
        assert("columnheader"@.len() != "note"@.len());
    }
    assert("combobox"@ != "note"@) by {
        assert("combobox"@.len() != "note"@.len());
    }
    assert("complementary"@ != "note"@) by {
        assert("complementary"@.len() != "note"@.len());
    }
    assert("contentinfo"@ != "note"@) by {
        assert("contentinfo"@.len() != "note"@.len());
    }
    assert("definition"@ != "note"@) by {
        assert("definition"@.len() != "note"@.len());
    }
    assert("dialog"@ != "note"@) by {
        assert("dialog"@.len() != "note"@.len());
    }
    assert("directory"@ != "note"@) by {
        assert("directory"@.len() != "note"@.len());
    }
    assert("document"@ != "note"@) by {
        assert("document"@.len() != "note"@.len());
    }
    assert("feed"@ != "note"@) by {
        assert("feed"@[0] != "note"@[0]);
    }
    assert("figure"@ != "note"@) by {
        assert("figure"@.len() != "note"@.len());
    }
    assert("form"@ != "note"@) by {
        assert("form"@[0] != "note"@[0]);
    }
    assert("grid"@ != "note"@) by {
        assert("grid"@[0] != "note"@[0]);
    }
    assert("gridcell"@ != "note"@) by {
        assert("gridcell"@.len() != "note"@.len());
    }
    assert("group"@ != "note"@) by {
        assert("group"@.len() != "note"@.len());
    }
    assert("heading"@ != "note"@) by {
        assert("heading"@.len() != "note"@.len());
    }
    assert("img"@ != "note"@) by {
        assert("img"@.len() != "note"@.len());
    }
    assert("link"@ != "note"@) by {
        assert("link"@[0] != "note"@[0]);
    }
    assert("list"@ != "note"@) by {
        assert("list"@[0] != "note"@[0]);
    }
    assert("listbox"@ != "note"@) by {
        assert("listbox"@.len() != "note"@.len());
    }
    assert("listitem"@ != "note"@) by {
        assert("listitem"@.len() != "note"@.len());
    }
    assert("log"@ != "note"@) by {
        assert("log"@.len() != "note"@.len());
    }
    assert("main"@ != "note"@) by {
        assert("main"@[0] != "note"@[0]);
    }
    assert("marquee"@ != "note"@) by {
        assert("marquee"@.len() != "note"@.len());
    }
    assert("math"@ != "note"@) by {
        assert("math"@[0] != "note"@[0]);
    }
    assert("menu"@ != "note"@) by {
        assert("menu"@[0] != "note"@[0]);
    }
    assert("menubar"@ != "note"@) by {
        assert("menubar"@.len() != "note"@.len());
    }
    assert("menuitem"@ != "note"@) by {
        assert("menuitem"@.len() != "note"@.len());
    }
    assert("menuitemcheckbox"@ != "note"@) by {
        assert("menuitemcheckbox"@.len() != "note"@.len());
    }
    assert("menuitemradio"@ != "note"@) by {
        assert("menuitemradio"@.len() != "note"@.len());
    }
    assert("meter"@ != "note"@) by {
        assert("meter"@.len() != "note"@.len());
    }
    assert("navigation"@ != "note"@) by {
        assert("navigation"@.len() != "note"@.len());
    }
    assert("none"@ != "note"@) by {
        assert("none"@[2] != "note"@[2]);
    }
    assert("option"@ != "note"@) by {
        assert("option"@.len() != "note"@.len());
    }
    assert("presentation"@ != "note"@) by {
        assert("presentation"@.len() != "note"@.len());
    }
    assert("progressbar"@ != "note"@) by {
        assert("progressbar"@.len() != "note"@.len());
    }
    assert("radio"@ != "note"@) by {
        assert("radio"@.len() != "note"@.len());
    }
    assert("radiogroup"@ != "note"@) by {
        assert("radiogroup"@.len() != "note"@.len());
    }
    assert("region"@ != "note"@) by {
        assert("region"@.len() != "note"@.len());
    }
    assert("row"@ != "note"@) by {
        assert("row"@.len() != "note"@.len());
    }
    assert("rowgroup"@ != "note"@) by {
        assert("rowgroup"@.len() != "note"@.len());
    }
    assert("rowheader"@ != "note"@) by {
        assert("rowheader"@.len() != "note"@.len());
    }
    assert("scrollbar"@ != "note"@) by {
        assert("scrollbar"@.len() != "note"@.len());
    }
    assert("search"@ != "note"@) by {
        assert("search"@.len() != "note"@.len());
    }
    assert("searchbox"@ != "note"@) by {
        assert("searchbox"@.len() != "note"@.len());
    }
    assert("separator"@ != "note"@) by {
        assert("separator"@.len() != "note"@.len());
    }
    assert("slider"@ != "note"@) by {
        assert("slider"@.len() != "note"@.len());
    }
    assert("spinbutton"@ != "note"@) by {
        assert("spinbutton"@.len() != "note"@.len());
    }
    assert("status"@ != "note"@) by {
        assert("status"@.len() != "note"@.len());
    }
    assert("switch"@ != "note"@) by {
        assert("switch"@.len() != "note"@.len());
    }
    assert("tab"@ != "note"@) by {
        assert("tab"@.len() != "note"@.len());
    }
    assert("table"@ != "note"@) by {
        assert("table"@.len() != "note"@.len());
    }
    assert("tablist"@ != "note"@) by {
        assert("tablist"@.len() != "note"@.len());
    }
    assert("tabpanel"@ != "note"@) by {
        assert("tabpanel"@.len() != "note"@.len());
    }
    assert("term"@ != "note"@) by {
        assert("term"@[0] != "note"@[0]);
    }
    assert("textbox"@ != "note"@) by {
        assert("textbox"@.len() != "note"@.len());
    }
    assert("timer"@ != "note"@) by {
        assert("timer"@.len() != "note"@.len());
    }
    assert("toolbar"@ != "note"@) by {
        assert("toolbar"@.len() != "note"@.len());
    }
    assert("tooltip"@ != "note"@) by {
        assert("tooltip"@.len() != "note"@.len());
    }
    assert("tree"@ != "note"@) by {
        assert("tree"@[0] != "note"@[0]);
    }
    assert("treegrid"@ != "note"@) by {
        assert("treegrid"@.len() != "note"@.len());
    }
    assert("treeitem"@ != "note"@) by {
        assert("treeitem"@.len() != "note"@.len());
    }
    assert("command"@ != "note"@) by {
        assert("command"@.len() != "note"@.len());
    }
    assert("composite"@ != "note"@) by {
        assert("composite"@.len() != "note"@.len());
    }
    assert("input"@ != "note"@) by {
        assert("input"@.len() != "note"@.len());
    }
    assert("landmark"@ != "note"@) by {
        assert("landmark"@.len() != "note"@.len());
    }
    assert("range"@ != "note"@) by {
        assert("range"@.len() != "note"@.len());
    }
    assert("roletype"@ != "note"@) by {
        assert("roletype"@.len() != "note"@.len());
    }
    assert("section"@ != "note"@) by {
        assert("section"@.len() != "note"@.len());
    }
    assert("sectionhead"@ != "note"@) by {
        assert("sectionhead"@.len() != "note"@.len());
    }
    assert("select"@ != "note"@) by {
        assert("select"@.len() != "note"@.len());
    }
    assert("structure"@ != "note"@) by {
        assert("structure"@.len() != "note"@.len());
    }
    assert("widget"@ != "note"@) by {
        assert("widget"@.len() != "note"@.len());
    }
    assert("window"@ != "note"@) by {
        assert("window"@.len() != "note"@.len());
    }
}

proof fn role_name_unique_option(b: Role)
    requires
        b.name_spec() == "option"@,
    ensures
        b == Role::Option,
{
    reveal_strlit("alert");
    reveal_strlit("alertdialog");
    reveal_strlit("application");
    reveal_strlit("article");
    reveal_strlit("banner");
    reveal_strlit("button");
    reveal_strlit("cell");
    reveal_strlit("checkbox");
    reveal_strlit("columnheader");
    reveal_strlit("combobox");
    reveal_strlit("complementary");
    reveal_strlit("contentinfo");
    reveal_strlit("definition");
    reveal_strlit("dialog");
    reveal_strlit("directory");
    reveal_strlit("document");
    reveal_strlit("feed");
    reveal_strlit("figure");
    reveal_strlit("form");
    reveal_strlit("grid");
    reveal_strlit("gridcell");
    reveal_strlit("group");
    reveal_strlit("heading");
    reveal_strlit("img");
    reveal_strlit("link");
    reveal_strlit("list");
    reveal_strlit("listbox");
    reveal_strlit("listitem");
    reveal_strlit("log");
    reveal_strlit("main");
    reveal_strlit("marquee");
    reveal_strlit("math");
    reveal_strlit("menu");
    reveal_strlit("menubar");
    reveal_strlit("menuitem");
    reveal_strlit("menuitemcheckbox");
    reveal_strlit("menuitemradio");
    reveal_strlit("meter");
    reveal_strlit("navigation");
    reveal_strlit("none");
    reveal_strlit("note");
    reveal_strlit("option");
    reveal_strlit("presentation");
    reveal_strlit("progressbar");
    reveal_strlit("radio");
    reveal_strlit("radiogroup");
    reveal_strlit("region");
    reveal_strlit("row");
    reveal_strlit("rowgroup");
    reveal_strlit("rowheader");
    reveal_strlit("scrollbar");
    reveal_strlit("search");
    reveal_strlit("searchbox");
    reveal_strlit("separator");
    reveal_strlit("slider");
    reveal_strlit("spinbutton");
    reveal_strlit("status");
    reveal_strlit("switch");
    reveal_strlit("tab");
    reveal_strlit("table");
    reveal_strlit("tablist");
    reveal_strlit("tabpanel");
    reveal_strlit("term");
    reveal_strlit("textbox");
    reveal_strlit("timer");
    reveal_strlit("toolbar");
    reveal_strlit("tooltip");
    reveal_strlit("tree");
    reveal_strlit("treegrid");
    reveal_strlit("treeitem");
    reveal_strlit("command");
    reveal_strlit("composite");
    reveal_strlit("input");
    reveal_strlit("landmark");
    reveal_strlit("range");
    reveal_strlit("roletype");
    reveal_strlit("section");
    reveal_strlit("sectionhead");
    reveal_strlit("select");
    reveal_strlit("structure");
    reveal_strlit("widget");
    reveal_strlit("window");
    assert("alert"@ != "option"@) by {
        assert("alert"@.len() != "option"@.len());
    }
    assert("alertdialog"@ != "option"@) by {
        assert("alertdialog"@.len() != "option"@.len());
    }
    assert("application"@ != "option"@) by {
        assert("application"@.len() != "option"@.len());
    }
    assert("article"@ != "option"@) by {
        assert("article"@.len() != "option"@.len());
    }
    assert("banner"@ != "option"@) by {
        assert("banner"@[0] != "option"@[0]);
    }
    assert("button"@ != "option"@) by {
        assert("button"@[0] != "option"@[0]);
    }
    assert("cell"@ != "option"@) by {
        assert("cell"@.len() != "option"@.len());
    }
    assert("checkbox"@ != "option"@) by {
        assert("checkbox"@.len() != "option"@.len());
    }
    assert("columnheader"@ != "option"@) by {
        assert("columnheader"@.len() != "option"@.len());
    }
    assert("combobox"@ != "option"@) by {
        assert("combobox"@.len() != "option"@.len());
    }
    assert("complementary"@ != "option"@) by {
        assert("complementary"@.len() != "option"@.len());
    }
    assert("contentinfo"@ != "option"@) by {
        assert("contentinfo"@.len() != "option"@.len());
    }
    assert("definition"@ != "option"@) by {
        assert("definition"@.len() != "option"@.len());
    }
    assert("dialog"@ != "option"@) by {
        assert("dialog"@[0] != "option"@[0]);
    }
    assert("directory"@ != "option"@) by {
        assert("directory"@.len() != "option"@.len());
    }
    assert("document"@ != "option"@) by {
        assert("document"@.len() != "option"@.len());
    }
    assert("feed"@ != "option"@) by {
        assert("feed"@.len() != "option"@.len());
    }
    assert("figure"@ != "option"@) by {
        assert("figure"@[0] != "option"@[0]);
    }
    assert("form"@ != "option"@) by {
        assert("form"@.len() != "option"@.len());
    }
    assert("grid"@ != "option"@) by {
        assert("grid"@.len() != "option"@.len());
    }
    assert("gridcell"@ != "option"@) by {
        assert("gridcell"@.len() != "option"@.len());
    }
    assert("group"@ != "option"@) by {
        assert("group"@.len() != "option"@.len());
    }
    assert("heading"@ != "option"@) by {
        assert("heading"@.len() != "option"@.len());
    }
    assert("img"@ != "option"@) by {
        assert("img"@.len() != "option"@.len());
    }
    assert("link"@ != "option"@) by {
        assert("link"@.len() != "option"@.len());
    }
    assert("list"@ != "option"@) by {
        assert("list"@.len() != "option"@.len());
    }
    assert("listbox"@ != "option"@) by {
        assert("listbox"@.len() != "option"@.len());
    }
    assert("listitem"@ != "option"@) by {
        assert("listitem"@.len() != "option"@.len());
    }
    assert("log"@ != "option"@) by {
        assert("log"@.len() != "option"@.len());
    }
    assert("main"@ != "option"@) by {
        assert("main"@.len() != "option"@.len());
    }
    assert("marquee"@ != "option"@) by {
        assert("marquee"@.len() != "option"@.len());
    }
    assert("math"@ != "option"@) by {
        assert("math"@.len() != "option"@.len());
    }
    assert("menu"@ != "option"@) by {
        assert("menu"@.len() != "option"@.len());
    }
    assert("menubar"@ != "option"@) by {
        assert("menubar"@.len() != "option"@.len());
    }
    assert("menuitem"@ != "option"@) by {
        assert("menuitem"@.len() != "option"@.len());
    }
    assert("menuitemcheckbox"@ != "option"@) by {
        assert("menuitemcheckbox"@.len() != "option"@.len());
    }
    assert("menuitemradio"@ != "option"@) by {
        assert("menuitemradio"@.len() != "option"@.len());
    }
    assert("meter"@ != "option"@) by {
        assert("meter"@.len() != "option"@.len());
    }
    assert("navigation"@ != "option"@) by {
        assert("navigation"@.len() != "option"@.len());
    }
    assert("none"@ != "option"@) by {
        assert("none"@.len() != "option"@.len());
    }
    assert("note"@ != "option"@) by {
        assert("note"@.len() != "option"@.len());
    }
    assert("presentation"@ != "option"@) by {
        assert("presentation"@.len() != "option"@.len());
    }
    assert("progressbar"@ != "option"@) by {
        assert("progressbar"@.len() != "option"@.len());
    }
    assert("radio"@ != "option"@) by {
        assert("radio"@.len() != "option"@.len());
    }
    assert("radiogroup"@ != "option"@) by {
        assert("radiogroup"@.len() != "option"@.len());
    }
    assert("region"@ != "option"@) by {
        assert("region"@[0] != "option"@[0]);
    }
    assert("row"@ != "option"@) by {
        assert("row"@.len() != "option"@.len());
    }
    assert("rowgroup"@ != "option"@) by {
        assert("rowgroup"@.len() != "option"@.len());
    }
    assert("rowheader"@ != "option"@) by {
        assert("rowheader"@.len() != "option"@.len());
    }
    assert("scrollbar"@ != "option"@) by {
        assert("scrollbar"@.len() != "option"@.len());
    }
    assert("search"@ != "option"@) by {
        assert("search"@[0] != "option"@[0]);
    }
    assert("searchbox"@ != "option"@) by {
        assert("searchbox"@.len() != "option"@.len());
    }
    assert("separator"@ != "option"@) by {
        assert("separator"@.len() != "option"@.len());
    }
    assert("slider"@ != "option"@) by {
        assert("slider"@[0] != "option"@[0]);
    }
    assert("spinbutton"@ != "option"@) by {
        assert("spinbutton"@.len() != "option"@.len());
    }
    assert("status"@ != "option"@) by {
        assert("status"@[0] != "option"@[0]);
    }
    assert("switch"@ != "option"@) by {
        assert("switch"@[0] != "option"@[0]);
    }
    assert("tab"@ != "option"@) by {
        assert("tab"@.len() != "option"@.len());
    }
    assert("table"@ != "option"@) by {
        assert("table"@.len() != "option"@.len());
    }
    assert("tablist"@ != "option"@) by {
        assert("tablist"@.len() != "option"@.len());
    }
    assert("tabpanel"@ != "option"@) by {
        assert("tabpanel"@.len() != "option"@.len());
    }
    assert("term"@ != "option"@) by {
        assert("term"@.len() != "option"@.len());
    }
    assert("textbox"@ != "option"@) by {
        assert("textbox"@.len() != "option"@.len());
    }
    assert("timer"@ != "option"@) by {
        assert("timer"@.len() != "option"@.len());
    }
    assert("toolbar"@ != "option"@) by {
        assert("toolbar"@.len() != "option"@.len());
    }
    assert("tooltip"@ != "option"@) by {
        assert("tooltip"@.len() != "option"@.len());
    }
    assert("tree"@ != "option"@) by {
        assert("tree"@.len() != "option"@.len());
    }
    assert("treegrid"@ != "option"@) by {
        assert("treegrid"@.len() != "option"@.len());
    }
    assert("treeitem"@ != "option"@) by {
        assert("treeitem"@.len() != "option"@.len());
    }
    assert("command"@ != "option"@) by {
        assert("command"@.len() != "option"@.len());
    }
    assert("composite"@ != "option"@) by {
        assert("composite"@.len() != "option"@.len());
    }
    assert("input"@ != "option"@) by {
        assert("input"@.len() != "option"@.len());
    }
    assert("landmark"@ != "option"@) by {
        assert("landmark"@.len() != "option"@.len());
    }
    assert("range"@ != "option"@) by {
        assert("range"@.len() != "option"@.len());
    }
    assert("roletype"@ != "option"@) by {
        assert("roletype"@.len() != "option"@.len());
    }
    assert("section"@ != "option"@) by {
        assert("section"@.len() != "option"@.len());
    }
    assert("sectionhead"@ != "option"@) by {
        assert("sectionhead"@.len() != "option"@.len());
    }
    assert("select"@ != "option"@) by {
        assert("select"@[0] != "option"@[0]);
    }
    assert("structure"@ != "option"@) by {
        assert("structure"@.len() != "option"@.len());
    }
    assert("widget"@ != "option"@) by {
        assert("widget"@[0] != "option"@[0]);
    }
    assert("window"@ != "option"@) by {
        assert("window"@[0] != "option"@[0]);
    }
}

proof fn role_name_unique_presentation(b: Role)
    requires
        b.name_spec() == "presentation"@,
    ensures
        b == Role::Presentation,
{
    reveal_strlit("alert");
    reveal_strlit("alertdialog");
    reveal_strlit("application");
    reveal_strlit("article");
    reveal_strlit("banner");
    reveal_strlit("button");
    reveal_strlit("cell");
    reveal_strlit("checkbox");
    reveal_strlit("columnheader");
    reveal_strlit("combobox");
    reveal_strlit("complementary");
    reveal_strlit("contentinfo");
    reveal_strlit("definition");
    reveal_strlit("dialog");
    reveal_strlit("directory");
    reveal_strlit("document");
    reveal_strlit("feed");
    reveal_strlit("figure");
    reveal_strlit("form");
    reveal_strlit("grid");
    reveal_strlit("gridcell");
    reveal_strlit("group");
    reveal_strlit("heading");
    reveal_strlit("img");
    reveal_strlit("link");
    reveal_strlit("list");
    reveal_strlit("listbox");
    reveal_strlit("listitem");
    reveal_strlit("log");
    reveal_strlit("main");
    reveal_strlit("marquee");
    reveal_strlit("math");
    reveal_strlit("menu");
    reveal_strlit("menubar");
    reveal_strlit("menuitem");
    reveal_strlit("menuitemcheckbox");
    reveal_strlit("menuitemradio");
    reveal_strlit("meter");
    reveal_strlit("navigation");
    reveal_strlit("none");
    reveal_strlit("note");
    reveal_strlit("option");
    reveal_strlit("presentation");
    reveal_strlit("progressbar");
    reveal_strlit("radio");
    reveal_strlit("radiogroup");
    reveal_strlit("region");
    reveal_strlit("row");
    reveal_strlit("rowgroup");
    reveal_strlit("rowheader");
    reveal_strlit("scrollbar");
    reveal_strlit("search");
    reveal_strlit("searchbox");
    reveal_strlit("separator");
    reveal_strlit("slider");
    reveal_strlit("spinbutton");
    reveal_strlit("status");
    reveal_strlit("switch");
    reveal_strlit("tab");
    reveal_strlit("table");
    reveal_strlit("tablist");
    reveal_strlit("tabpanel");
    reveal_strlit("term");
    reveal_strlit("textbox");
    reveal_strlit("timer");
    reveal_strlit("toolbar");
    reveal_strlit("tooltip");
    reveal_strlit("tree");
    reveal_strlit("treegrid");
    reveal_strlit("treeitem");
    reveal_strlit("command");
    reveal_strlit("composite");
    reveal_strlit("input");
    reveal_strlit("landmark");
    reveal_strlit("range");
    reveal_strlit("roletype");
    reveal_strlit("section");
    reveal_strlit("sectionhead");
    reveal_strlit("select");
    reveal_strlit("structure");
    reveal_strlit("widget");
    reveal_strlit("window");
    assert("alert"@ != "presentation"@) by {
        assert("alert"@.len() != "presentation"@.len());
    }
    assert("alertdialog"@ != "presentation"@) by {
        assert("alertdialog"@.len() != "presentation"@.len());
    }
    assert("application"@ != "presentation"@) by {
        assert("application"@.len() != "presentation"@.len());
    }
    assert("article"@ != "presentation"@) by {
        assert("article"@.len() != "presentation"@.len());
    }
    assert("banner"@ != "presentation"@) by {
        assert("banner"@.len() != "presentation"@.len());
    }
    assert("button"@ != "presentation"@) by {
        assert("button"@.len() != "presentation"@.len());
    }
    assert("cell"@ != "presentation"@) by {
        assert("cell"@.len() != "presentation"@.len());
    }
    assert("checkbox"@ != "presentation"@) by {
        assert("checkbox"@.len() != "presentation"@.len());
    }
    assert("columnheader"@ != "presentation"@) by {
        assert("columnheader"@[0] != "presentation"@[0]);
    }
    assert("combobox"@ != "presentation"@) by {
        assert("combobox"@.len() != "presentation"@.len());
    }
    assert("complementary"@ != "presentation"@) by {
        assert("complementary"@.len() != "presentation"@.len());
    }
    assert("contentinfo"@ != "presentation"@) by {
        assert("contentinfo"@.len() != "presentation"@.len());
    }
    assert("definition"@ != "presentation"@) by {
        assert("definition"@.len() != "presentation"@.len());
    }
    assert("dialog"@ != "presentation"@) by {
        assert("dialog"@.len() != "presentation"@.len());
    }
    assert("directory"@ != "presentation"@) by {
        assert("directory"@.len() != "presentation"@.len());
    }
    assert("document"@ != "presentation"@) by {
        assert("document"@.len() != "presentation"@.len());
    }
    assert("feed"@ != "presentation"@) by {
        assert("feed"@.len() != "presentation"@.len());
    }
    assert("figure"@ != "presentation"@) by {
        assert("figure"@.len() != "presentation"@.len());
    }
    assert("form"@ != "presentation"@) by {
        assert("form"@.len() != "presentation"@.len());
    }
    assert("grid"@ != "presentation"@) by {
        assert("grid"@.len() != "presentation"@.len());
    }
    assert("gridcell"@ != "presentation"@) by {
        assert("gridcell"@.len() != "presentation"@.len());
    }
    assert("group"@ != "presentation"@) by {
        assert("group"@.len() != "presentation"@.len());
    }
    assert("heading"@ != "presentation"@) by {
        assert("heading"@.len() != "presentation"@.len());
    }
    assert("img"@ != "presentation"@) by {
        assert("img"@.len() != "presentation"@.len());
    }
    assert("link"@ != "presentation"@) by {
        assert("link"@.len() != "presentation"@.len());
    }
    assert("list"@ != "presentation"@) by {
        assert("list"@.len() != "presentation"@.len());
    }
    assert("listbox"@ != "presentation"@) by {
        assert("listbox"@.len() != "presentation"@.len());
    }
    assert("listitem"@ != "presentation"@) by {
        assert("listitem"@.len() != "presentation"@.len());
    }
    assert("log"@ != "presentation"@) by {
        assert("log"@.len() != "presentation"@.len());
    }
    assert("main"@ != "presentation"@) by {
        assert("main"@.len() != "presentation"@.len());
    }
    assert("marquee"@ != "presentation"@) by {
        assert("marquee"@.len() != "presentation"@.len());
    }
    assert("math"@ != "presentation"@) by {
        assert("math"@.len() != "presentation"@.len());
    }
    assert("menu"@ != "presentation"@) by {
        assert("menu"@.len() != "presentation"@.len());
    }
    assert("menubar"@ != "presentation"@) by {
        assert("menubar"@.len() != "presentation"@.len());
    }
    assert("menuitem"@ != "presentation"@) by {
        assert("menuitem"@.len() != "presentation"@.len());
    }
    assert("menuitemcheckbox"@ != "presentation"@) by {
        assert("menuitemcheckbox"@.len() != "presentation"@.len());
    }
    assert("menuitemradio"@ != "presentation"@) by {
        assert("menuitemradio"@.len() != "presentation"@.len());
    }
    assert("meter"@ != "presentation"@) by {
        assert("meter"@.len() != "presentation"@.len());
    }
    assert("navigation"@ != "presentation"@) by {
        assert("navigation"@.len() != "presentation"@.len());
    }
    assert("none"@ != "presentation"@) by {
        assert("none"@.len() != "presentation"@.len());
    }
    assert("note"@ != "presentation"@) by {
        assert("note"@.len() != "presentation"@.len());
    }
    assert("option"@ != "presentation"@) by {
        assert("option"@.len() != "presentation"@.len());
    }
    assert("progressbar"@ != "presentation"@) by {
        assert("progressbar"@.len() != "presentation"@.len());
    }
    assert("radio"@ != "presentation"@) by {
        assert("radio"@.len() != "presentation"@.len());
    }
    assert("radiogroup"@ != "presentation"@) by {
        assert("radiogroup"@.len() != "presentation"@.len());
    }
    assert("region"@ != "presentation"@) by {
        assert("region"@.len() != "presentation"@.len());
    }
    assert("row"@ != "presentation"@) by {
        assert("row"@.len() != "presentation"@.len());
    }
    assert("rowgroup"@ != "presentation"@) by {
        assert("rowgroup"@.len() != "presentation"@.len());
    }
    assert("rowheader"@ != "presentation"@) by {
        assert("rowheader"@.len() != "presentation"@.len());
    }
    assert("scrollbar"@ != "presentation"@) by {
        assert("scrollbar"@.len() != "presentation"@.len());
    }
    assert("search"@ != "presentation"@) by {
        assert("search"@.len() != "presentation"@.len());
    }
    assert("searchbox"@ != "presentation"@) by {
        assert("searchbox"@.len() != "presentation"@.len());
    }
    assert("separator"@ != "presentation"@) by {
        assert("separator"@.len() != "presentation"@.len());
    }
    assert("slider"@ != "presentation"@) by {
        assert("slider"@.len() != "presentation"@.len());
    }
    assert("spinbutton"@ != "presentation"@) by {
        assert("spinbutton"@.len() != "presentation"@.len());
    }
    assert("status"@ != "presentation"@) by {
        assert("status"@.len() != "presentation"@.len());
    }
    assert("switch"@ != "presentation"@) by {
        assert("switch"@.len() != "presentation"@.len());
    }
    assert("tab"@ != "presentation"@) by {
        assert("tab"@.len() != "presentation"@.len());
    }
    assert("table"@ != "presentation"@) by {
        assert("table"@.len() != "presentation"@.len());
    }
    assert("tablist"@ != "presentation"@) by {
        assert("tablist"@.len() != "presentation"@.len());
    }
    assert("tabpanel"@ != "presentation"@) by {
        assert("tabpanel"@.len() != "presentation"@.len());
    }
    assert("term"@ != "presentation"@) by {
        assert("term"@.len() != "presentation"@.len());
    }
    assert("textbox"@ != "presentation"@) by {
        assert("textbox"@.len() != "presentation"@.len());
    }
    assert("timer"@ != "presentation"@) by {
        assert("timer"@.len() != "presentation"@.len());
    }
    assert("toolbar"@ != "presentation"@) by {
        assert("toolbar"@.len() != "presentation"@.len());
    }
    assert("tooltip"@ != "presentation"@) by {
        assert("tooltip"@.len() != "presentation"@.len());
    }
    assert("tree"@ != "presentation"@) by {
        assert("tree"@.len() != "presentation"@.len());
    }
    assert("treegrid"@ != "presentation"@) by {
        assert("treegrid"@.len() != "presentation"@.len());
    }
    assert("treeitem"@ != "presentation"@) by {
        assert("treeitem"@.len() != "presentation"@.len());
    }
    assert("command"@ != "presentation"@) by {
        assert("command"@.len() != "presentation"@.len());
    }
    assert("composite"@ != "presentation"@) by {
        assert("composite"@.len() != "presentation"@.len());
    }
    assert("input"@ != "presentation"@) by {
        assert("input"@.len() != "presentation"@.len());
    }
    assert("landmark"@ != "presentation"@) by {
        assert("landmark"@.len() != "presentation"@.len());
    }
    assert("range"@ != "presentation"@) by {
        assert("range"@.len() != "presentation"@.len());
    }
    assert("roletype"@ != "presentation"@) by {
        assert("roletype"@.len() != "presentation"@.len());
    }
    assert("section"@ != "presentation"@) by {
        assert("section"@.len() != "presentation"@.len());
    }
    assert("sectionhead"@ != "presentation"@) by {
        assert("sectionhead"@.len() != "presentation"@.len());
    }
    assert("select"@ != "presentation"@) by {
        assert("select"@.len() != "presentation"@.len());
    }
    assert("structure"@ != "presentation"@) by {
        assert("structure"@.len() != "presentation"@.len());
    }
    assert("widget"@ != "presentation"@) by {
        assert("widget"@.len() != "presentation"@.len());
    }
    assert("window"@ != "presentation"@) by {
        assert("window"@.len() != "presentation"@.len());
    }
}

proof fn role_name_unique_progressbar(b: Role)
    requires
        b.name_spec() == "progressbar"@,
    ensures
        b == Role::ProgressBar,
{
    reveal_strlit("alert");
    reveal_strlit("alertdialog");
    reveal_strlit("application");
    reveal_strlit("article");
    reveal_strlit("banner");
    reveal_strlit("button");
    reveal_strlit("cell");
    reveal_strlit("checkbox");
    reveal_strlit("columnheader");
    reveal_strlit("combobox");
    reveal_strlit("complementary");
    reveal_strlit("contentinfo");
    reveal_strlit("definition");
    reveal_strlit("dialog");
    reveal_strlit("directory");
    reveal_strlit("document");
    reveal_strlit("feed");
    reveal_strlit("figure");
    reveal_strlit("form");
    reveal_strlit("grid");
    reveal_strlit("gridcell");
    reveal_strlit("group");
    reveal_strlit("heading");
    reveal_strlit("img");
    reveal_strlit("link");
    reveal_strlit("list");
    reveal_strlit("listbox");
    reveal_strlit("listitem");
    reveal_strlit("log");
    reveal_strlit("main");
    reveal_strlit("marquee");
    reveal_strlit("math");
    reveal_strlit("menu");
    reveal_strlit("menubar");
    reveal_strlit("menuitem");
    reveal_strlit("menuitemcheckbox");
    reveal_strlit("menuitemradio");
    reveal_strlit("meter");
    reveal_strlit("navigation");
    reveal_strlit("none");
    reveal_strlit("note");
    reveal_strlit("option");
    reveal_strlit("presentation");
    reveal_strlit("progressbar");
    reveal_strlit("radio");
    reveal_strlit("radiogroup");
    reveal_strlit("region");
    reveal_strlit("row");
    reveal_strlit("rowgroup");
    reveal_strlit("rowheader");
    reveal_strlit("scrollbar");
    reveal_strlit("search");
    reveal_strlit("searchbox");
    reveal_strlit("separator");
    reveal_strlit("slider");
    reveal_strlit("spinbutton");
    reveal_strlit("status");
    reveal_strlit("switch");
    reveal_strlit("tab");
    reveal_strlit("table");
    reveal_strlit("tablist");
    reveal_strlit("tabpanel");
    reveal_strlit("term");
    reveal_strlit("textbox");
    reveal_strlit("timer");
    reveal_strlit("toolbar");
    reveal_strlit("tooltip");
    reveal_strlit("tree");
    reveal_strlit("treegrid");
    reveal_strlit("treeitem");
    reveal_strlit("command");
    reveal_strlit("composite");
    reveal_strlit("input");
    reveal_strlit("landmark");
    reveal_strlit("range");
    reveal_strlit("roletype");
    reveal_strlit("section");
    reveal_strlit("sectionhead");
    reveal_strlit("select");
    reveal_strlit("structure");
    reveal_strlit("widget");
    reveal_strlit("window");
    assert("alert"@ != "progressbar"@) by {
        assert("alert"@.len() != "progressbar"@.len());
    }
    assert("alertdialog"@ != "progressbar"@) by {
        assert("alertdialog"@[0] != "progressbar"@[0]);
    }
    assert("application"@ != "progressbar"@) by {
        assert("application"@[0] != "progressbar"@[0]);
    }
    assert("article"@ != "progressbar"@) by {
        assert("article"@.len() != "progressbar"@.len());
    }
    assert("banner"@ != "progressbar"@) by {
        assert("banner"@.len() != "progressbar"@.len());
    }
    assert("button"@ != "progressbar"@) by {
        assert("button"@.len() != "progressbar"@.len());
    }
    assert("cell"@ != "progressbar"@) by {
        assert("cell"@.len() != "progressbar"@.len());
    }
    assert("checkbox"@ != "progressbar"@) by {
        assert("checkbox"@.len() != "progressbar"@.len());
    }
    assert("columnheader"@ != "progressbar"@) by {
        assert("columnheader"@.len() != "progressbar"@.len());
    }
    assert("combobox"@ != "progressbar"@) by {
        assert("combobox"@.len() != "progressbar"@.len());
    }
    assert("complementary"@ != "progressbar"@) by {
        assert("complementary"@.len() != "progressbar"@.len());
    }
    assert("contentinfo"@ != "progressbar"@) by {
        assert("contentinfo"@[0] != "progressbar"@[0]);
    }
    assert("definition"@ != "progressbar"@) by {
        assert("definition"@.len() != "progressbar"@.len());
    }
    assert("dialog"@ != "progressbar"@) by {
        assert("dialog"@.len() != "progressbar"@.len());
    }
    assert("directory"@ != "progressbar"@) by {
        assert("directory"@.len() != "progressbar"@.len());
    }
    assert("document"@ != "progressbar"@) by {
        assert("document"@.len() != "progressbar"@.len());
    }
    assert("feed"@ != "progressbar"@) by {
        assert("feed"@.len() != "progressbar"@.len());
    }
    assert("figure"@ != "progressbar"@) by {
        assert("figure"@.len() != "progressbar"@.len());
    }
    assert("form"@ != "progressbar"@) by {
        assert("form"@.len() != "progressbar"@.len());
    }
    assert("grid"@ != "progressbar"@) by {
        assert("grid"@.len() != "progressbar"@.len());
    }
    assert("gridcell"@ != "progressbar"@) by {
        assert("gridcell"@.len() != "progressbar"@.len());
    }
    assert("group"@ != "progressbar"@) by {
        assert("group"@.len() != "progressbar"@.len());
    }
    assert("heading"@ != "progressbar"@) by {
        assert("heading"@.len() != "progressbar"@.len());
    }
    assert("img"@ != "progressbar"@) by {
        assert("img"@.len() != "progressbar"@.len());
    }
    assert("link"@ != "progressbar"@) by {
        assert("link"@.len() != "progressbar"@.len());
    }
    assert("list"@ != "progressbar"@) by {
        assert("list"@.len() != "progressbar"@.len());
    }
    assert("listbox"@ != "progressbar"@) by {
        assert("listbox"@.len() != "progressbar"@.len());
    }
    assert("listitem"@ != "progressbar"@) by {
        assert("listitem"@.len() != "progressbar"@.len());
    }
    assert("log"@ != "progressbar"@) by {
        assert("log"@.len() != "progressbar"@.len());
    }
    assert("main"@ != "progressbar"@) by {
        assert("main"@.len() != "progressbar"@.len());
    }
    assert("marquee"@ != "progressbar"@) by {
        assert("marquee"@.len() != "progressbar"@.len());
    }
    assert("math"@ != "progressbar"@) by {
        assert("math"@.len() != "progressbar"@.len());
    }
    assert("menu"@ != "progressbar"@) by {
        assert("menu"@.len() != "progressbar"@.len());
    }
    assert("menubar"@ != "progressbar"@) by {
        assert("menubar"@.len() != "progressbar"@.len());
    }
    assert("menuitem"@ != "progressbar"@) by {
        assert("menuitem"@.len() != "progressbar"@.len());
    }
    assert("menuitemcheckbox"@ != "progressbar"@) by {
        assert("menuitemcheckbox"@.len() != "progressbar"@.len());
    }
    assert("menuitemradio"@ != "progressbar"@) by {
        assert("menuitemradio"@.len() != "progressbar"@.len());
    }
    assert("meter"@ != "progressbar"@) by {
        assert("meter"@.len() != "progressbar"@.len());
    }
    assert("navigation"@ != "progressbar"@) by {
        assert("navigation"@.len() != "progressbar"@.len());
    }
    assert("none"@ != "progressbar"@) by {
        assert("none"@.len() != "progressbar"@.len());
    }
    assert("note"@ != "progressbar"@) by {
        assert("note"@.len() != "progressbar"@.len());
    }
    assert("option"@ != "progressbar"@) by {
        assert("option"@.len() != "progressbar"@.len());
    }
    assert("presentation"@ != "progressbar"@) by {
        assert("presentation"@.len() != "progressbar"@.len());
    }
    assert("radio"@ != "progressbar"@) by {
        assert("radio"@.len() != "progressbar"@.len());
    }
    assert("radiogroup"@ != "progressbar"@) by {
        assert("radiogroup"@.len() != "progressbar"@.len());
    }
    assert("region"@ != "progressbar"@) by {
        assert("region"@.len() != "progressbar"@.len());
    }
    assert("row"@ != "progressbar"@) by {
        assert("row"@.len() != "progressbar"@.len());
    }
    assert("rowgroup"@ != "progressbar"@) by {
        assert("rowgroup"@.len() != "progressbar"@.len());
    }
    assert("rowheader"@ != "progressbar"@) by {
        assert("rowheader"@.len() != "progressbar"@.len());
    }
    assert("scrollbar"@ != "progressbar"@) by {
        assert("scrollbar"@.len() != "progressbar"@.len());
    }
    assert("search"@ != "progressbar"@) by {
        assert("search"@.len() != "progressbar"@.len());
    }
    assert("searchbox"@ != "progressbar"@) by {
        assert("searchbox"@.len() != "progressbar"@.len());
    }
    assert("separator"@ != "progressbar"@) by {
        assert("separator"@.len() != "progressbar"@.len());
    }
    assert("slider"@ != "progressbar"@) by {
        assert("slider"@.len() != "progressbar"@.len());
    }
    assert("spinbutton"@ != "progressbar"@) by {
        assert("spinbutton"@.len() != "progressbar"@.len());
    }
    assert("status"@ != "progressbar"@) by {
        assert("status"@.len() != "progressbar"@.len());
    }
    assert("switch"@ != "progressbar"@) by {
        assert("switch"@.len() != "progressbar"@.len());
    }
    assert("tab"@ != "progressbar"@) by {
        assert("tab"@.len() != "progressbar"@.len());
    }
    assert("table"@ != "progressbar"@) by {
        assert("table"@.len() != "progressbar"@.len());
    }
    assert("tablist"@ != "progressbar"@) by {
        assert("tablist"@.len() != "progressbar"@.len());
    }
    assert("tabpanel"@ != "progressbar"@) by {
        assert("tabpanel"@.len() != "progressbar"@.len());
    }
    assert("term"@ != "progressbar"@) by {
        assert("term"@.len() != "progressbar"@.len());
    }
    assert("textbox"@ != "progressbar"@) by {
        assert("textbox"@.len() != "progressbar"@.len());
    }
    assert("timer"@ != "progressbar"@) by {
        assert("timer"@.len() != "progressbar"@.len());
    }
    assert("toolbar"@ != "progressbar"@) by {
        assert("toolbar"@.len() != "progressbar"@.len());
    }
    assert("tooltip"@ != "progressbar"@) by {
        assert("tooltip"@.len() != "progressbar"@.len());
    }
    assert("tree"@ != "progressbar"@) by {
        assert("tree"@.len() != "progressbar"@.len());
    }
    assert("treegrid"@ != "progressbar"@) by {
        assert("treegrid"@.len() != "progressbar"@.len());
    }
    assert("treeitem"@ != "progressbar"@) by {
        assert("treeitem"@.len() != "progressbar"@.len());
    }
    assert("command"@ != "progressbar"@) by {
        assert("command"@.len() != "progressbar"@.len());
    }
    assert("composite"@ != "progressbar"@) by {
        assert("composite"@.len() != "progressbar"@.len());
    }
    assert("input"@ != "progressbar"@) by {
        assert("input"@.len() != "progressbar"@.len());
    }
    assert("landmark"@ != "progressbar"@) by {
        assert("landmark"@.len() != "progressbar"@.len());
    }
    assert("range"@ != "progressbar"@) by {
        assert("range"@.len() != "progressbar"@.len());
    }
    assert("roletype"@ != "progressbar"@) by {
        assert("roletype"@.len() != "progressbar"@.len());
    }
    assert("section"@ != "progressbar"@) by {
        assert("section"@.len() != "progressbar"@.len());
    }
    assert("sectionhead"@ != "progressbar"@) by {
        assert("sectionhead"@[0] != "progressbar"@[0]);
    }
    assert("select"@ != "progressbar"@) by {
        assert("select"@.len() != "progressbar"@.len());
    }
    assert("structure"@ != "progressbar"@) by {
        assert("structure"@.len() != "progressbar"@.len());
    }
    assert("widget"@ != "progressbar"@) by {
        assert("widget"@.len() != "progressbar"@.len());
    }
    assert("window"@ != "progressbar"@) by {
        assert("window"@.len() != "progressbar"@.len());
    }
}

proof fn role_name_unique_radio(b: Role)
    requires
        b.name_spec() == "radio"@,
    ensures
        b == Role::Radio,
{
    reveal_strlit("alert");
    reveal_strlit("alertdialog");
    reveal_strlit("application");
    reveal_strlit("article");
    reveal_strlit("banner");
    reveal_strlit("button");
    reveal_strlit("cell");
    reveal_strlit("checkbox");
    reveal_strlit("columnheader");
    reveal_strlit("combobox");
    reveal_strlit("complementary");
    reveal_strlit("contentinfo");
    reveal_strlit("definition");
    reveal_strlit("dialog");
    reveal_strlit("directory");
    reveal_strlit("document");
    reveal_strlit("feed");
    reveal_strlit("figure");
    reveal_strlit("form");
    reveal_strlit("grid");
    reveal_strlit("gridcell");
    reveal_strlit("group");
    reveal_strlit("heading");
    reveal_strlit("img");
    reveal_strlit("link");
    reveal_strlit("list");
    reveal_strlit("listbox");
    reveal_strlit("listitem");
    reveal_strlit("log");
    reveal_strlit("main");
    reveal_strlit("marquee");
    reveal_strlit("math");
    reveal_strlit("menu");
    reveal_strlit("menubar");
    reveal_strlit("menuitem");
    reveal_strlit("menuitemcheckbox");
    reveal_strlit("menuitemradio");
    reveal_strlit("meter");
    reveal_strlit("navigation");
    reveal_strlit("none");
    reveal_strlit("note");
    reveal_strlit("option");
    reveal_strlit("presentation");
    reveal_strlit("progressbar");
    reveal_strlit("radio");
    reveal_strlit("radiogroup");
    reveal_strlit("region");
    reveal_strlit("row");
    reveal_strlit("rowgroup");
    reveal_strlit("rowheader");
    reveal_strlit("scrollbar");
    reveal_strlit("search");
    reveal_strlit("searchbox");
    reveal_strlit("separator");
    reveal_strlit("slider");
    reveal_strlit("spinbutton");
    reveal_strlit("status");
    reveal_strlit("switch");
    reveal_strlit("tab");
    reveal_strlit("table");
    reveal_strlit("tablist");
    reveal_strlit("tabpanel");
    reveal_strlit("term");
    reveal_strlit("textbox");
    reveal_strlit("timer");
    reveal_strlit("toolbar");
    reveal_strlit("tooltip");
    reveal_strlit("tree");
    reveal_strlit("treegrid");
    reveal_strlit("treeitem");
    reveal_strlit("command");
    reveal_strlit("composite");
    reveal_strlit("input");
    reveal_strlit("landmark");
    reveal_strlit("range");
    reveal_strlit("roletype");
    reveal_strlit("section");
    reveal_strlit("sectionhead");
    reveal_strlit("select");
    reveal_strlit("structure");
    reveal_strlit("widget");
    reveal_strlit("window");
    assert("alert"@ != "radio"@) by {
        assert("alert"@[0] != "radio"@[0]);
    }
    assert("alertdialog"@ != "radio"@) by {
        assert("alertdialog"@.len() != "radio"@.len());
    }
    assert("application"@ != "radio"@) by {
        assert("application"@.len() != "radio"@.len());
    }
    assert("article"@ != "radio"@) by {
        assert("article"@.len() != "radio"@.len());
    }
    assert("banner"@ != "radio"@) by {
        assert("banner"@.len() != "radio"@.len());
    }
    assert("button"@ != "radio"@) by {
        assert("button"@.len() != "radio"@.len());
    }
    assert("cell"@ != "radio"@) by {
        assert("cell"@.len() != "radio"@.len());
    }
    assert("checkbox"@ != "radio"@) by {
        assert("checkbox"@.len() != "radio"@.len());
    }
    assert("columnheader"@ != "radio"@) by {
        assert("columnheader"@.len() != "radio"@.len());
    }
    assert("combobox"@ != "radio"@) by {
        assert("combobox"@.len() != "radio"@.len());
    }
    assert("complementary"@ != "radio"@) by {
        assert("complementary"@.len() != "radio"@.len());
    }
    assert("contentinfo"@ != "radio"@) by {
        assert("contentinfo"@.len() != "radio"@.len());
    }
    assert("definition"@ != "radio"@) by {
        assert("definition"@.len() != "radio"@.len());
    }
    assert("dialog"@ != "radio"@) by {
        assert("dialog"@.len() != "radio"@.len());
    }
    assert("directory"@ != "radio"@) by {
        assert("directory"@.len() != "radio"@.len());
    }
    assert("document"@ != "radio"@) by {
        assert("document"@.len() != "radio"@.len());
    }
    assert("feed"@ != "radio"@) by {
        assert("feed"@.len() != "radio"@.len());
    }
    assert("figure"@ != "radio"@) by {
        assert("figure"@.len() != "radio"@.len());
    }
    assert("form"@ != "radio"@) by {
        assert("form"@.len() != "radio"@.len());
    }
    assert("grid"@ != "radio"@) by {
        assert("grid"@.len() != "radio"@.len());
    }
    assert("gridcell"@ != "radio"@) by {
        assert("gridcell"@.len() != "radio"@.len());
    }
    assert("group"@ != "radio"@) by {
        assert("group"@[0] != "radio"@[0]);
    }
    assert("heading"@ != "radio"@) by {
        assert("heading"@.len() != "radio"@.len());
    }
    assert("img"@ != "radio"@) by {
        assert("img"@.len() != "radio"@.len());
    }
    assert("link"@ != "radio"@) by {
        assert("link"@.len() != "radio"@.len());
    }
    assert("list"@ != "radio"@) by {
        assert("list"@.len() != "radio"@.len());
    }
    assert("listbox"@ != "radio"@) by {
        assert("listbox"@.len() != "radio"@.len());
    }
    assert("listitem"@ != "radio"@) by {
        assert("listitem"@.len() != "radio"@.len());
    }
    assert("log"@ != "radio"@) by {
        assert("log"@.len() != "radio"@.len());
    }
    assert("main"@ != "radio"@) by {
        assert("main"@.len() != "radio"@.len());
    }
    assert("marquee"@ != "radio"@) by {
        assert("marquee"@.len() != "radio"@.len());
    }
    assert("math"@ != "radio"@) by {
        assert("math"@.len() != "radio"@.len());
    }
    assert("menu"@ != "radio"@) by {
        assert("menu"@.len() != "radio"@.len());
    }
    assert("menubar"@ != "radio"@) by {
        assert("menubar"@.len() != "radio"@.len());
    }
    assert("menuitem"@ != "radio"@) by {
        assert("menuitem"@.len() != "radio"@.len());
    }
    assert("menuitemcheckbox"@ != "radio"@) by {
        assert("menuitemcheckbox"@.len() != "radio"@.len());
    }
    assert("menuitemradio"@ != "radio"@) by {
        assert("menuitemradio"@.len() != "radio"@.len());
    }
    assert("meter"@ != "radio"@) by {
        assert("meter"@[0] != "radio"@[0]);
    }
    assert("navigation"@ != "radio"@) by {
        assert("navigation"@.len() != "radio"@.len());
    }
    assert("none"@ != "radio"@) by {
        assert("none"@.len() != "radio"@.len());
    }
    assert("note"@ != "radio"@) by {
        assert("note"@.len() != "radio"@.len());
    }
    assert("option"@ != "radio"@) by {
        assert("option"@.len() != "radio"@.len());
    }
    assert("presentation"@ != "radio"@) by {
        assert("presentation"@.len() != "radio"@.len());
    }
    assert("progressbar"@ != "radio"@) by {
        assert("progressbar"@.len() != "radio"@.len());
    }
    assert("radiogroup"@ != "radio"@) by {
        assert("radiogroup"@.len() != "radio"@.len());
    }
    assert("region"@ != "radio"@) by {
        assert("region"@.len() != "radio"@.len());
    }
    assert("row"@ != "radio"@) by {
        assert("row"@.len() != "radio"@.len());
    }
    assert("rowgroup"@ != "radio"@) by {
        assert("rowgroup"@.len() != "radio"@.len());
    }
    assert("rowheader"@ != "radio"@) by {
        assert("rowheader"@.len() != "radio"@.len());
    }
    assert("scrollbar"@ != "radio"@) by {
        assert("scrollbar"@.len() != "radio"@.len());
    }
    assert("search"@ != "radio"@) by {
        assert("search"@.len() != "radio"@.len());
    }
    assert("searchbox"@ != "radio"@) by {
        assert("searchbox"@.len() != "radio"@.len());
    }
    assert("separator"@ != "radio"@) by {
        assert("separator"@.len() != "radio"@.len());
    }
    assert("slider"@ != "radio"@) by {
        assert("slider"@.len() != "radio"@.len());
    }
    assert("spinbutton"@ != "radio"@) by {
        assert("spinbutton"@.len() != "radio"@.len());
    }
    assert("status"@ != "radio"@) by {
        assert("status"@.len() != "radio"@.len());
    }
    assert("switch"@ != "radio"@) by {
        assert("switch"@.len() != "radio"@.len());
    }
    assert("tab"@ != "radio"@) by {
        assert("tab"@.len() != "radio"@.len());
    }
    assert("table"@ != "radio"@) by {
        assert("table"@[0] != "radio"@[0]);
    }
    assert("tablist"@ != "radio"@) by {
        assert("tablist"@.len() != "radio"@.len());
    }
    assert("tabpanel"@ != "radio"@) by {
        assert("tabpanel"@.len() != "radio"@.len());
    }
    assert("term"@ != "radio"@) by {
        assert("term"@.len() != "radio"@.len());
    }
    assert("textbox"@ != "radio"@) by {
        assert("textbox"@.len() != "radio"@.len());
    }
    assert("timer"@ != "radio"@) by {
        assert("timer"@[0] != "radio"@[0]);
    }
    assert("toolbar"@ != "radio"@) by {
        assert("toolbar"@.len() != "radio"@.len());
    }
    assert("tooltip"@ != "radio"@) by {
        assert("tooltip"@.len() != "radio"@.len());
    }
    assert("tree"@ != "radio"@) by {
        assert("tree"@.len() != "radio"@.len());
    }
    assert("treegrid"@ != "radio"@) by {
        assert("treegrid"@.len() != "radio"@.len());
    }
    assert("treeitem"@ != "radio"@) by {
        assert("treeitem"@.len() != "radio"@.len());
    }
    assert("command"@ != "radio"@) by {
        assert("command"@.len() != "radio"@.len());
    }
    assert("composite"@ != "radio"@) by {
        assert("composite"@.len() != "radio"@.len());
    }
    assert("input"@ != "radio"@) by {
        assert("input"@[0] != "radio"@[0]);
    }
    assert("landmark"@ != "radio"@) by {
        assert("landmark"@.len() != "radio"@.len());
    }
    assert("range"@ != "radio"@) by {
        assert("range"@[2] != "radio"@[2]);
    }
    assert("roletype"@ != "radio"@) by {
        assert("roletype"@.len() != "radio"@.len());
    }
    assert("section"@ != "radio"@) by {
        assert("section"@.len() != "radio"@.len());
    }
    assert("sectionhead"@ != "radio"@) by {
        assert("sectionhead"@.len() != "radio"@.len());
    }
    assert("select"@ != "radio"@) by {
        assert("select"@.len() != "radio"@.len());
    }
    assert("structure"@ != "radio"@) by {
        assert("structure"@.len() != "radio"@.len());
    }
    assert("widget"@ != "radio"@) by {
        assert("widget"@.len() != "radio"@.len());
    }
    assert("window"@ != "radio"@) by {
        assert("window"@.len() != "radio"@.len());
    }
}

proof fn role_name_unique_radiogroup(b: Role)
    requires
        b.name_spec() == "radiogroup"@,
    ensures
        b == Role::RadioGroup,
{
    reveal_strlit("alert");
    reveal_strlit("alertdialog");
    reveal_strlit("application");
    reveal_strlit("article");
    reveal_strlit("banner");
    reveal_strlit("button");
    reveal_strlit("cell");
    reveal_strlit("checkbox");
    reveal_strlit("columnheader");
    reveal_strlit("combobox");
    reveal_strlit("complementary");
    reveal_strlit("contentinfo");
    reveal_strlit("definition");
    reveal_strlit("dialog");
    reveal_strlit("directory");
    reveal_strlit("document");
    reveal_strlit("feed");
    reveal_strlit("figure");
    reveal_strlit("form");
    reveal_strlit("grid");
    reveal_strlit("gridcell");
    reveal_strlit("group");
    reveal_strlit("heading");
    reveal_strlit("img");
    reveal_strlit("link");
    reveal_strlit("list");
    reveal_strlit("listbox");
    reveal_strlit("listitem");
    reveal_strlit("log");
    reveal_strlit("main");
    reveal_strlit("marquee");
    reveal_strlit("math");
    reveal_strlit("menu");
    reveal_strlit("menubar");
    reveal_strlit("menuitem");
    reveal_strlit("menuitemcheckbox");
    reveal_strlit("menuitemradio");
    reveal_strlit("meter");
    reveal_strlit("navigation");
    reveal_strlit("none");
    reveal_strlit("note");
    reveal_strlit("option");
    reveal_strlit("presentation");
    reveal_strlit("progressbar");
    reveal_strlit("radio");
    reveal_strlit("radiogroup");
    reveal_strlit("region");
    reveal_strlit("row");
    reveal_strlit("rowgroup");
    reveal_strlit("rowheader");
    reveal_strlit("scrollbar");
    reveal_strlit("search");
    reveal_strlit("searchbox");
    reveal_strlit("separator");
    reveal_strlit("slider");
    reveal_strlit("spinbutton");
    reveal_strlit("status");
    reveal_strlit("switch");
    reveal_strlit("tab");
    reveal_strlit("table");
    reveal_strlit("tablist");
    reveal_strlit("tabpanel");
    reveal_strlit("term");
    reveal_strlit("textbox");
    reveal_strlit("timer");
    reveal_strlit("toolbar");
    reveal_strlit("tooltip");
    reveal_strlit("tree");
    reveal_strlit("treegrid");
    reveal_strlit("treeitem");
    reveal_strlit("command");
    reveal_strlit("composite");
    reveal_strlit("input");
    reveal_strlit("landmark");
    reveal_strlit("range");
    reveal_strlit("roletype");
    reveal_strlit("section");
    reveal_strlit("sectionhead");
    reveal_strlit("select");
    reveal_strlit("structure");
    reveal_strlit("widget");
    reveal_strlit("window");
    assert("alert"@ != "radiogroup"@) by {
        assert("alert"@.len() != "radiogroup"@.len());
    }
    assert("alertdialog"@ != "radiogroup"@) by {
        assert("alertdialog"@.len() != "radiogroup"@.len());
    }
    assert("application"@ != "radiogroup"@) by {
        assert("application"@.len() != "radiogroup"@.len());
    }
    assert("article"@ != "radiogroup"@) by {
        assert("article"@.len() != "radiogroup"@.len());
    }
    assert("banner"@ != "radiogroup"@) by {
        assert("banner"@.len() != "radiogroup"@.len());
    }
    assert("button"@ != "radiogroup"@) by {
        assert("button"@.len() != "radiogroup"@.len());
    }
    assert("cell"@ != "radiogroup"@) by {
        assert("cell"@.len() != "radiogroup"@.len());
    }
    assert("checkbox"@ != "radiogroup"@) by {
        assert("checkbox"@.len() != "radiogroup"@.len());
    }
    assert("columnheader"@ != "radiogroup"@) by {
        assert("columnheader"@.len() != "radiogroup"@.len());
    }
    assert("combobox"@ != "radiogroup"@) by {
        assert("combobox"@.len() != "radiogroup"@.len());
    }
    assert("complementary"@ != "radiogroup"@) by {
        assert("complementary"@.len() != "radiogroup"@.len());
    }
    assert("contentinfo"@ != "radiogroup"@) by {
        assert("contentinfo"@.len() != "radiogroup"@.len());
    }
    assert("definition"@ != "radiogroup"@) by {
        assert("definition"@[0] != "radiogroup"@[0]);
    }
    assert("dialog"@ != "radiogroup"@) by {
        assert("dialog"@.len() != "radiogroup"@.len());
    }
    assert("directory"@ != "radiogroup"@) by {
        assert("directory"@.len() != "radiogroup"@.len());
    }
    assert("document"@ != "radiogroup"@) by {
        assert("document"@.len() != "radiogroup"@.len());
    }
    assert("feed"@ != "radiogroup"@) by {
        assert("feed"@.len() != "radiogroup"@.len());
    }
    assert("figure"@ != "radiogroup"@) by {
        assert("figure"@.len() != "radiogroup"@.len());
    }
    assert("form"@ != "radiogroup"@) by {
        assert("form"@.len() != "radiogroup"@.len());
    }
    assert("grid"@ != "radiogroup"@) by {
        assert("grid"@.len() != "radiogroup"@.len());
    }
    assert("gridcell"@ != "radiogroup"@) by {
        assert("gridcell"@.len() != "radiogroup"@.len());
    }
    assert("group"@ != "radiogroup"@) by {
        assert("group"@.len() != "radiogroup"@.len());
    }
    assert("heading"@ != "radiogroup"@) by {
        assert("heading"@.len() != "radiogroup"@.len());
    }
    assert("img"@ != "radiogroup"@) by {
        assert("img"@.len() != "radiogroup"@.len());
    }
    assert("link"@ != "radiogroup"@) by {
        assert("link"@.len() != "radiogroup"@.len());
    }
    assert("list"@ != "radiogroup"@) by {
        assert("list"@.len() != "radiogroup"@.len());
    }
    assert("listbox"@ != "radiogroup"@) by {
        assert("listbox"@.len() != "radiogroup"@.len());
    }
    assert("listitem"@ != "radiogroup"@) by {
        assert("listitem"@.len() != "radiogroup"@.len());
    }
    assert("log"@ != "radiogroup"@) by {
        assert("log"@.len() != "radiogroup"@.len());
    }
    assert("main"@ != "radiogroup"@) by {
        assert("main"@.len() != "radiogroup"@.len());
    }
    assert("marquee"@ != "radiogroup"@) by {
        assert("marquee"@.len() != "radiogroup"@.len());
    }
    assert("math"@ != "radiogroup"@) by {
        assert("math"@.len() != "radiogroup"@.len());
    }
    assert("menu"@ != "radiogroup"@) by {
        assert("menu"@.len() != "radiogroup"@.len());
    }
    assert("menubar"@ != "radiogroup"@) by {
        assert("menubar"@.len() != "radiogroup"@.len());
    }
    assert("menuitem"@ != "radiogroup"@) by {
        assert("menuitem"@.len() != "radiogroup"@.len());
    }
    assert("menuitemcheckbox"@ != "radiogroup"@) by {
        assert("menuitemcheckbox"@.len() != "radiogroup"@.len());
    }
    assert("menuitemradio"@ != "radiogroup"@) by {
        assert("menuitemradio"@.len() != "radiogroup"@.len());
    }
    assert("meter"@ != "radiogroup"@) by {
        assert("meter"@.len() != "radiogroup"@.len());
    }
    assert("navigation"@ != "radiogroup"@) by {
        assert("navigation"@[0] != "radiogroup"@[0]);
    }
    assert("none"@ != "radiogroup"@) by {
        assert("none"@.len() != "radiogroup"@.len());
    }
    assert("note"@ != "radiogroup"@) by {
        assert("note"@.len() != "radiogroup"@.len());
    }
    assert("option"@ != "radiogroup"@) by {
        assert("option"@.len() != "radiogroup"@.len());
    }
    assert("presentation"@ != "radiogroup"@) by {
        assert("presentation"@.len() != "radiogroup"@.len());
    }
    assert("progressbar"@ != "radiogroup"@) by {
        assert("progressbar"@.len() != "radiogroup"@.len());
    }
    assert("radio"@ != "radiogroup"@) by {
        assert("radio"@.len() != "radiogroup"@.len());
    }
    assert("region"@ != "radiogroup"@) by {
        assert("region"@.len() != "radiogroup"@.len());
    }
    assert("row"@ != "radiogroup"@) by {
        assert("row"@.len() != "radiogroup"@.len());
    }
    assert("rowgroup"@ != "radiogroup"@) by {
        assert("rowgroup"@.len() != "radiogroup"@.len());
    }
    assert("rowheader"@ != "radiogroup"@) by {
        assert("rowheader"@.len() != "radiogroup"@.len());
    }
    assert("scrollbar"@ != "radiogroup"@) by {
        assert("scrollbar"@.len() != "radiogroup"@.len());
    }
    assert("search"@ != "radiogroup"@) by {
        assert("search"@.len() != "radiogroup"@.len());
    }
    assert("searchbox"@ != "radiogroup"@) by {
        assert("searchbox"@.len() != "radiogroup"@.len());
    }
    assert("separator"@ != "radiogroup"@) by {
        assert("separator"@.len() != "radiogroup"@.len());
    }
    assert("slider"@ != "radiogroup"@) by {
        assert("slider"@.len() != "radiogroup"@.len());
    }
    assert("spinbutton"@ != "radiogroup"@) by {
        assert("spinbutton"@[0] != "radiogroup"@[0]);
    }
    assert("status"@ != "radiogroup"@) by {
        assert("status"@.len() != "radiogroup"@.len());
    }
    assert("switch"@ != "radiogroup"@) by {
        assert("switch"@.len() != "radiogroup"@.len());
    }
    assert("tab"@ != "radiogroup"@) by {
        assert("tab"@.len() != "radiogroup"@.len());
    }
    assert("table"@ != "radiogroup"@) by {
        assert("table"@.len() != "radiogroup"@.len());
    }
    assert("tablist"@ != "radiogroup"@) by {
        assert("tablist"@.len() != "radiogroup"@.len());
    }
    assert("tabpanel"@ != "radiogroup"@) by {
        assert("tabpanel"@.len() != "radiogroup"@.len());
    }
    assert("term"@ != "radiogroup"@) by {
        assert("term"@.len() != "radiogroup"@.len());
    }
    assert("textbox"@ != "radiogroup"@) by {
        assert("textbox"@.len() != "radiogroup"@.len());
    }
    assert("timer"@ != "radiogroup"@) by {
        assert("timer"@.len() != "radiogroup"@.len());
    }
    assert("toolbar"@ != "radiogroup"@) by {
        assert("toolbar"@.len() != "radiogroup"@.len());
    }
    assert("tooltip"@ != "radiogroup"@) by {
        assert("tooltip"@.len() != "radiogroup"@.len());
    }
    assert("tree"@ != "radiogroup"@) by {
        assert("tree"@.len() != "radiogroup"@.len());
    }
    assert("treegrid"@ != "radiogroup"@) by {
        assert("treegrid"@.len() != "radiogroup"@.len());
    }
    assert("treeitem"@ != "radiogroup"@) by {
        assert("treeitem"@.len() != "radiogroup"@.len());
    }
    assert("command"@ != "radiogroup"@) by {
        assert("command"@.len() != "radiogroup"@.len());
    }
    assert("composite"@ != "radiogroup"@) by {
        assert("composite"@.len() != "radiogroup"@.len());
    }
    assert("input"@ != "radiogroup"@) by {
        assert("input"@.len() != "radiogroup"@.len());
    }
    assert("landmark"@ != "radiogroup"@) by {
        assert("landmark"@.len() != "radiogroup"@.len());
    }
    assert("range"@ != "radiogroup"@) by {
        assert("range"@.len() != "radiogroup"@.len());
    }
    assert("roletype"@ != "radiogroup"@) by {
        assert("roletype"@.len() != "radiogroup"@.len());
    }
    assert("section"@ != "radiogroup"@) by {
        assert("section"@.len() != "radiogroup"@.len());
    }
    assert("sectionhead"@ != "radiogroup"@) by {
        assert("sectionhead"@.len() != "radiogroup"@.len());
    }
    assert("select"@ != "radiogroup"@) by {
        assert("select"@.len() != "radiogroup"@.len());
    }
    assert("structure"@ != "radiogroup"@) by {
        assert("structure"@.len() != "radiogroup"@.len());
    }
    assert("widget"@ != "radiogroup"@) by {
        assert("widget"@.len() != "radiogroup"@.len());
    }
    assert("window"@ != "radiogroup"@) by {
        assert("window"@.len() != "radiogroup"@.len());
    }
}

proof fn role_name_unique_region(b: Role)
    requires
        b.name_spec() == "region"@,
    ensures
        b == Role::Region,
{
    reveal_strlit("alert");
    reveal_strlit("alertdialog");
    reveal_strlit("application");
    reveal_strlit("article");
    reveal_strlit("banner");
    reveal_strlit("button");
    reveal_strlit("cell");
    reveal_strlit("checkbox");
    reveal_strlit("columnheader");
    reveal_strlit("combobox");
    reveal_strlit("complementary");
    reveal_strlit("contentinfo");
    reveal_strlit("definition");
    reveal_strlit("dialog");
    reveal_strlit("directory");
    reveal_strlit("document");
    reveal_strlit("feed");
    reveal_strlit("figure");
    reveal_strlit("form");
    reveal_strlit("grid");
    reveal_strlit("gridcell");
    reveal_strlit("group");
    reveal_strlit("heading");
    reveal_strlit("img");
    reveal_strlit("link");
    reveal_strlit("list");
    reveal_strlit("listbox");
    reveal_strlit("listitem");
    reveal_strlit("log");
    reveal_strlit("main");
    reveal_strlit("marquee");
    reveal_strlit("math");
    reveal_strlit("menu");
    reveal_strlit("menubar");
    reveal_strlit("menuitem");
    reveal_strlit("menuitemcheckbox");
    reveal_strlit("menuitemradio");
    reveal_strlit("meter");
    reveal_strlit("navigation");
    reveal_strlit("none");
    reveal_strlit("note");
    reveal_strlit("option");
    reveal_strlit("presentation");
    reveal_strlit("progressbar");
    reveal_strlit("radio");
    reveal_strlit("radiogroup");
    reveal_strlit("region");
    reveal_strlit("row");
    reveal_strlit("rowgroup");
    reveal_strlit("rowheader");
    reveal_strlit("scrollbar");
    reveal_strlit("search");
    reveal_strlit("searchbox");
    reveal_strlit("separator");
    reveal_strlit("slider");
    reveal_strlit("spinbutton");
    reveal_strlit("status");
    reveal_strlit("switch");
    reveal_strlit("tab");
    reveal_strlit("table");
    reveal_strlit("tablist");
    reveal_strlit("tabpanel");
    reveal_strlit("term");
    reveal_strlit("textbox");
    reveal_strlit("timer");
    reveal_strlit("toolbar");
    reveal_strlit("tooltip");
    reveal_strlit("tree");
    reveal_strlit("treegrid");
    reveal_strlit("treeitem");
    reveal_strlit("command");
    reveal_strlit("composite");
    reveal_strlit("input");
    reveal_strlit("landmark");
    reveal_strlit("range");
    reveal_strlit("roletype");
    reveal_strlit("section");
    reveal_strlit("sectionhead");
    reveal_strlit("select");
    reveal_strlit("structure");
    reveal_strlit("widget");
    reveal_strlit("window");
    assert("alert"@ != "region"@) by {
        assert("alert"@.len() != "region"@.len());
    }
    assert("alertdialog"@ != "region"@) by {
        assert("alertdialog"@.len() != "region"@.len());
    }
    assert("application"@ != "region"@) by {
        assert("application"@.len() != "region"@.len());
    }
    assert("article"@ != "region"@) by {
        assert("article"@.len() != "region"@.len());
    }
    assert("banner"@ != "region"@) by {
        assert("banner"@[0] != "region"@[0]);
    }
    assert("button"@ != "region"@) by {
        assert("button"@[0] != "region"@[0]);
    }
    assert("cell"@ != "region"@) by {
        assert("cell"@.len() != "region"@.len());
    }
    assert("checkbox"@ != "region"@) by {
        assert("checkbox"@.len() != "region"@.len());
    }
    assert("columnheader"@ != "region"@) by {
        assert("columnheader"@.len() != "region"@.len());
    }
    assert("combobox"@ != "region"@) by {
        assert("combobox"@.len() != "region"@.len());
    }
    assert("complementary"@ != "region"@) by {
        assert("complementary"@.len() != "region"@.len());
    }
    assert("contentinfo"@ != "region"@) by {
        assert("contentinfo"@.len() != "region"@.len());
    }
    assert("definition"@ != "region"@) by {
        assert("definition"@.len() != "region"@.len());
    }
    assert("dialog"@ != "region"@) by {
        assert("dialog"@[0] != "region"@[0]);
    }
    assert("directory"@ != "region"@) by {
        assert("directory"@.len() != "region"@.len());
    }
    assert("document"@ != "region"@) by {
        assert("document"@.len() != "region"@.len());
    }
    assert("feed"@ != "region"@) by {
        assert("feed"@.len() != "region"@.len());
    }
    assert("figure"@ != "region"@) by {
        assert("figure"@[0] != "region"@[0]);
    }
    assert("form"@ != "region"@) by {
        assert("form"@.len() != "region"@.len());
    }
    assert("grid"@ != "region"@) by {
        assert("grid"@.len() != "region"@.len());
    }
    assert("gridcell"@ != "region"@) by {
        assert("gridcell"@.len() != "region"@.len());
    }
    assert("group"@ != "region"@) by {
        assert("group"@.len() != "region"@.len());
    }
    assert("heading"@ != "region"@) by {
        assert("heading"@.len() != "region"@.len());
    }
    assert("img"@ != "region"@) by {
        assert("img"@.len() != "region"@.len());
    }
    assert("link"@ != "region"@) by {
        assert("link"@.len() != "region"@.len());
    }
    assert("list"@ != "region"@) by {
        assert("list"@.len() != "region"@.len());
    }
    assert("listbox"@ != "region"@) by {
        assert("listbox"@.len() != "region"@.len());
    }
    assert("listitem"@ != "region"@) by {
        assert("listitem"@.len() != "region"@.len());
    }
    assert("log"@ != "region"@) by {
        assert("log"@.len() != "region"@.len());
    }
    assert("main"@ != "region"@) by {
        assert("main"@.len() != "region"@.len());
    }
    assert("marquee"@ != "region"@) by {
        assert("marquee"@.len() != "region"@.len());
    }
    assert("math"@ != "region"@) by {
        assert("math"@.len() != "region"@.len());
    }
    assert("menu"@ != "region"@) by {
        assert("menu"@.len() != "region"@.len());
    }
    assert("menubar"@ != "region"@) by {
        assert("menubar"@.len() != "region"@.len());
    }
    assert("menuitem"@ != "region"@) by {
        assert("menuitem"@.len() != "region"@.len());
    }
    assert("menuitemcheckbox"@ != "region"@) by {
        assert("menuitemcheckbox"@.len() != "region"@.len());
    }
    assert("menuitemradio"@ != "region"@) by {
        assert("menuitemradio"@.len() != "region"@.len());
    }
    assert("meter"@ != "region"@) by {
        assert("meter"@.len() != "region"@.len());
    }
    assert("navigation"@ != "region"@) by {
        assert("navigation"@.len() != "region"@.len());
    }
    assert("none"@ != "region"@) by {
        assert("none"@.len() != "region"@.len());
    }
    assert("note"@ != "region"@) by {
        assert("note"@.len() != "region"@.len());
    }
    assert("option"@ != "region"@) by {
        assert("option"@[0] != "region"@[0]);
    }
    assert("presentation"@ != "region"@) by {
        assert("presentation"@.len() != "region"@.len());
    }
    assert("progressbar"@ != "region"@) by {
        assert("progressbar"@.len() != "region"@.len());
    }
    assert("radio"@ != "region"@) by {
        assert("radio"@.len() != "region"@.len());
    }
    assert("radiogroup"@ != "region"@) by {
        assert("radiogroup"@.len() != "region"@.len());
    }
    assert("row"@ != "region"@) by {
        assert("row"@.len() != "region"@.len());
    }
    assert("rowgroup"@ != "region"@) by {
        assert("rowgroup"@.len() != "region"@.len());
    }
    assert("rowheader"@ != "region"@) by {
        assert("rowheader"@.len() != "region"@.len());
    }
    assert("scrollbar"@ != "region"@) by {
        assert("scrollbar"@.len() != "region"@.len());
    }
    assert("search"@ != "region"@) by {
        assert("search"@[0] != "region"@[0]);
    }
    assert("searchbox"@ != "region"@) by {
        assert("searchbox"@.len() != "region"@.len());
    }
    assert("separator"@ != "region"@) by {
        assert("separator"@.len() != "region"@.len());
    }
    assert("slider"@ != "region"@) by {
        assert("slider"@[0] != "region"@[0]);
    }
    assert("spinbutton"@ != "region"@) by {
        assert("spinbutton"@.len() != "region"@.len());
    }
    assert("status"@ != "region"@) by {
        assert("status"@[0] != "region"@[0]);
    }
    assert("switch"@ != "region"@) by {
        assert("switch"@[0] != "region"@[0]);
    }
    assert("tab"@ != "region"@) by {
        assert("tab"@.len() != "region"@.len());
    }
    assert("table"@ != "region"@) by {
        assert("table"@.len() != "region"@.len());
    }
    assert("tablist"@ != "region"@) by {
        assert("tablist"@.len() != "region"@.len());
    }
    assert("tabpanel"@ != "region"@) by {
        assert("tabpanel"@.len() != "region"@.len());
    }
    assert("term"@ != "region"@) by {
        assert("term"@.len() != "region"@.len());
    }
    assert("textbox"@ != "region"@) by {
        assert("textbox"@.len() != "region"@.len());
    }
    assert("timer"@ != "region"@) by {
        assert("timer"@.len() != "region"@.len());
    }
    assert("toolbar"@ != "region"@) by {
        assert("toolbar"@.len() != "region"@.len());
    }
    assert("tooltip"@ != "region"@) by {
        assert("tooltip"@.len() != "region"@.len());
    }
    assert("tree"@ != "region"@) by {
        assert("tree"@.len() != "region"@.len());
    }
    assert("treegrid"@ != "region"@) by {
        assert("treegrid"@.len() != "region"@.len());
    }
    assert("treeitem"@ != "region"@) by {
        assert("treeitem"@.len() != "region"@.len());
    }
    assert("command"@ != "region"@) by {
        assert("command"@.len() != "region"@.len());
    }
    assert("composite"@ != "region"@) by {
        assert("composite"@.len() != "region"@.len());
    }
    assert("input"@ != "region"@) by {
        assert("input"@.len() != "region"@.len());
    }
    assert("landmark"@ != "region"@) by {
        assert("landmark"@.len() != "region"@.len());
    }
    assert("range"@ != "region"@) by {
        assert("range"@.len() != "region"@.len());
    }
    assert("roletype"@ != "region"@) by {
        assert("roletype"@.len() != "region"@.len());
    }
    assert("section"@ != "region"@) by {
        assert("section"@.len() != "region"@.len());
    }
    assert("sectionhead"@ != "region"@) by {
        assert("sectionhead"@.len() != "region"@.len());
    }
    assert("select"@ != "region"@) by {
        assert("select"@[0] != "region"@[0]);
    }
    assert("structure"@ != "region"@) by {
        assert("structure"@.len() != "region"@.len());
    }
    assert("widget"@ != "region"@) by {
        assert("widget"@[0] != "region"@[0]);
    }
    assert("window"@ != "region"@) by {
        assert("window"@[0] != "region"@[0]);
    }
}

proof fn role_name_unique_row(b: Role)
    requires
        b.name_spec() == "row"@,
    ensures
        b == Role::Row,
{
    reveal_strlit("alert");
    reveal_strlit("alertdialog");
    reveal_strlit("application");
    reveal_strlit("article");
    reveal_strlit("banner");
    reveal_strlit("button");
    reveal_strlit("cell");
    reveal_strlit("checkbox");
    reveal_strlit("columnheader");
    reveal_strlit("combobox");
    reveal_strlit("complementary");
    reveal_strlit("contentinfo");
    reveal_strlit("definition");
    reveal_strlit("dialog");
    reveal_strlit("directory");
    reveal_strlit("document");
    reveal_strlit("feed");
    reveal_strlit("figure");
    reveal_strlit("form");
    reveal_strlit("grid");
    reveal_strlit("gridcell");
    reveal_strlit("group");
    reveal_strlit("heading");
    reveal_strlit("img");
    reveal_strlit("link");
    reveal_strlit("list");
    reveal_strlit("listbox");
    reveal_strlit("listitem");
    reveal_strlit("log");
    reveal_strlit("main");
    reveal_strlit("marquee");
    reveal_strlit("math");
    reveal_strlit("menu");
    reveal_strlit("menubar");
    reveal_strlit("menuitem");
    reveal_strlit("menuitemcheckbox");
    reveal_strlit("menuitemradio");
    reveal_strlit("meter");
    reveal_strlit("navigation");
    reveal_strlit("none");
    reveal_strlit("note");
    reveal_strlit("option");
    reveal_strlit("presentation");
    reveal_strlit("progressbar");
    reveal_strlit("radio");
    reveal_strlit("radiogroup");
    reveal_strlit("region");
    reveal_strlit("row");
    reveal_strlit("rowgroup");
    reveal_strlit("rowheader");
    reveal_strlit("scrollbar");
    reveal_strlit("search");
    reveal_strlit("searchbox");
    reveal_strlit("separator");
    reveal_strlit("slider");
    reveal_strlit("spinbutton");
    reveal_strlit("status");
    reveal_strlit("switch");
    reveal_strlit("tab");
    reveal_strlit("table");
    reveal_strlit("tablist");
    reveal_strlit("tabpanel");
    reveal_strlit("term");
    reveal_strlit("textbox");
    reveal_strlit("timer");
    reveal_strlit("toolbar");
    reveal_strlit("tooltip");
    reveal_strlit("tree");
    reveal_strlit("treegrid");
    reveal_strlit("treeitem");
    reveal_strlit("command");
    reveal_strlit("composite");
    reveal_strlit("input");
    reveal_strlit("landmark");
    reveal_strlit("range");
    reveal_strlit("roletype");
    reveal_strlit("section");
    reveal_strlit("sectionhead");
    reveal_strlit("select");
    reveal_strlit("structure");
    reveal_strlit("widget");
    reveal_strlit("window");
    assert("alert"@ != "row"@) by {
        assert("alert"@.len() != "row"@.len());
    }
    assert("alertdialog"@ != "row"@) by {
        assert("alertdialog"@.len() != "row"@.len());
    }
    assert("application"@ != "row"@) by {
        assert("application"@.len() != "row"@.len());
    }
    assert("article"@ != "row"@) by {
        assert("article"@.len() != "row"@.len());
    }
    assert("banner"@ != "row"@) by {
        assert("banner"@.len() != "row"@.len());
    }
    assert("button"@ != "row"@) by {
        assert("button"@.len() != "row"@.len());
    }
    assert("cell"@ != "row"@) by {
        assert("cell"@.len() != "row"@.len());
    }
    assert("checkbox"@ != "row"@) by {
        assert("checkbox"@.len() != "row"@.len());
    }
    assert("columnheader"@ != "row"@) by {
        assert("columnheader"@.len() != "row"@.len());
    }
    assert("combobox"@ != "row"@) by {
        assert("combobox"@.len() != "row"@.len());
    }
    assert("complementary"@ != "row"@) by {
        assert("complementary"@.len() != "row"@.len());
    }
    assert("contentinfo"@ != "row"@) by {
        assert("contentinfo"@.len() != "row"@.len());
    }
    assert("definition"@ != "row"@) by {
        assert("definition"@.len() != "row"@.len());
    }
    assert("dialog"@ != "row"@) by {
        assert("dialog"@.len() != "row"@.len());
    }
    assert("directory"@ != "row"@) by {
        assert("directory"@.len() != "row"@.len());
    }
    assert("document"@ != "row"@) by {
        assert("document"@.len() != "row"@.len());
    }
    assert("feed"@ != "row"@) by {
        assert("feed"@.len() != "row"@.len());
    }
    assert("figure"@ != "row"@) by {
        assert("figure"@.len() != "row"@.len());
    }
    assert("form"@ != "row"@) by {
        assert("form"@.len() != "row"@.len());
    }
    assert("grid"@ != "row"@) by {
        assert("grid"@.len() != "row"@.len());
    }
    assert("gridcell"@ != "row"@) by {
        assert("gridcell"@.len() != "row"@.len());
    }
    assert("group"@ != "row"@) by {
        assert("group"@.len() != "row"@.len());
    }
    assert("heading"@ != "row"@) by {
        assert("heading"@.len() != "row"@.len());
    }
    assert("img"@ != "row"@) by {
        assert("img"@[0] != "row"@[0]);
    }
    assert("link"@ != "row"@) by {
        assert("link"@.len() != "row"@.len());
    }
    assert("list"@ != "row"@) by {
        assert("list"@.len() != "row"@.len());
    }
    assert("listbox"@ != "row"@) by {
        assert("listbox"@.len() != "row"@.len());
    }
    assert("listitem"@ != "row"@) by {
        assert("listitem"@.len() != "row"@.len());
    }
    assert("log"@ != "row"@) by {
        assert("log"@[0] != "row"@[0]);
    }
    assert("main"@ != "row"@) by {
        assert("main"@.len() != "row"@.len());
    }
    assert("marquee"@ != "row"@) by {
        assert("marquee"@.len() != "row"@.len());
    }
    assert("math"@ != "row"@) by {
        assert("math"@.len() != "row"@.len());
    }
    assert("menu"@ != "row"@) by {
        assert("menu"@.len() != "row"@.len());
    }
    assert("menubar"@ != "row"@) by {
        assert("menubar"@.len() != "row"@.len());
    }
    assert("menuitem"@ != "row"@) by {
        assert("menuitem"@.len() != "row"@.len());
    }
    assert("menuitemcheckbox"@ != "row"@) by {
        assert("menuitemcheckbox"@.len() != "row"@.len());
    }
    assert("menuitemradio"@ != "row"@) by {
        assert("menuitemradio"@.len() != "row"@.len());
    }
    assert("meter"@ != "row"@) by {
        assert("meter"@.len() != "row"@.len());
    }
    assert("navigation"@ != "row"@) by {
        assert("navigation"@.len() != "row"@.len());
    }
    assert("none"@ != "row"@) by {
        assert("none"@.len() != "row"@.len());
    }
    assert("note"@ != "row"@) by {
        assert("note"@.len() != "row"@.len());
    }
    assert("option"@ != "row"@) by {
        assert("option"@.len() != "row"@.len());
    }
    assert("presentation"@ != "row"@) by {
        assert("presentation"@.len() != "row"@.len());
    }
    assert("progressbar"@ != "row"@) by {
        assert("progressbar"@.len() != "row"@.len());
    }
    assert("radio"@ != "row"@) by {
        assert("radio"@.len() != "row"@.len());
    }
    assert("radiogroup"@ != "row"@) by {
        assert("radiogroup"@.len() != "row"@.len());
    }
    assert("region"@ != "row"@) by {
        assert("region"@.len() != "row"@.len());
    }
    assert("rowgroup"@ != "row"@) by {
        assert("rowgroup"@.len() != "row"@.len());
    }
    assert("rowheader"@ != "row"@) by {
        assert("rowheader"@.len() != "row"@.len());
    }
    assert("scrollbar"@ != "row"@) by {
        assert("scrollbar"@.len() != "row"@.len());
    }
    assert("search"@ != "row"@) by {
        assert("search"@.len() != "row"@.len());
    }
    assert("searchbox"@ != "row"@) by {
        assert("searchbox"@.len() != "row"@.len());
    }
    assert("separator"@ != "row"@) by {
        assert("separator"@.len() != "row"@.len());
    }
    assert("slider"@ != "row"@) by {
        assert("slider"@.len() != "row"@.len());
    }
    assert("spinbutton"@ != "row"@) by {
        assert("spinbutton"@.len() != "row"@.len());
    }
    assert("status"@ != "row"@) by {
        assert("status"@.len() != "row"@.len());
    }
    assert("switch"@ != "row"@) by {
        assert("switch"@.len() != "row"@.len());
    }
    assert("tab"@ != "row"@) by {
        assert("tab"@[0] != "row"@[0]);
    }
    assert("table"@ != "row"@) by {
        assert("table"@.len() != "row"@.len());
    }
    assert("tablist"@ != "row"@) by {
        assert("tablist"@.len() != "row"@.len());
    }
    assert("tabpanel"@ != "row"@) by {
        assert("tabpanel"@.len() != "row"@.len());
    }
    assert("term"@ != "row"@) by {
        assert("term"@.len() != "row"@.len());
    }
    assert("textbox"@ != "row"@) by {
        assert("textbox"@.len() != "row"@.len());
    }
    assert("timer"@ != "row"@) by {
        assert("timer"@.len() != "row"@.len());
    }
    assert("toolbar"@ != "row"@) by {
        assert("toolbar"@.len() != "row"@.len());
    }
    assert("tooltip"@ != "row"@) by {
        assert("tooltip"@.len() != "row"@.len());
    }
    assert("tree"@ != "row"@) by {
        assert("tree"@.len() != "row"@.len());
    }
    assert("treegrid"@ != "row"@) by {
        assert("treegrid"@.len() != "row"@.len());
    }
    assert("treeitem"@ != "row"@) by {
        assert("treeitem"@.len() != "row"@.len());
    }
    assert("command"@ != "row"@) by {
        assert("command"@.len() != "row"@.len());
    }
    assert("composite"@ != "row"@) by {
        assert("composite"@.len() != "row"@.len());
    }
    assert("input"@ != "row"@) by {
        assert("input"@.len() != "row"@.len());
    }
    assert("landmark"@ != "row"@) by {
        assert("landmark"@.len() != "row"@.len());
    }
    assert("range"@ != "row"@) by {
        assert("range"@.len() != "row"@.len());
    }
    assert("roletype"@ != "row"@) by {
        assert("roletype"@.len() != "row"@.len());
    }
    assert("section"@ != "row"@) by {
        assert("section"@.len() != "row"@.len());
    }
    assert("sectionhead"@ != "row"@) by {
        assert("sectionhead"@.len() != "row"@.len());
    }
    assert("select"@ != "row"@) by {
        assert("select"@.len() != "row"@.len());
    }
    assert("structure"@ != "row"@) by {
        assert("structure"@.len() != "row"@.len());
    }
    assert("widget"@ != "row"@) by {
        assert("widget"@.len() != "row"@.len());
    }
    assert("window"@ != "row"@) by {
        assert("window"@.len() != "row"@.len());
    }
}

proof fn role_name_unique_rowgroup(b: Role)
    requires
        b.name_spec() == "rowgroup"@,
    ensures
        b == Role::RowGroup,
{
    reveal_strlit("alert");
    reveal_strlit("alertdialog");
    reveal_strlit("application");
    reveal_strlit("article");
    reveal_strlit("banner");
    reveal_strlit("button");
    reveal_strlit("cell");
    reveal_strlit("checkbox");
    reveal_strlit("columnheader");
    reveal_strlit("combobox");
    reveal_strlit("complementary");
    reveal_strlit("contentinfo");
    reveal_strlit("definition");
    reveal_strlit("dialog");
    reveal_strlit("directory");
    reveal_strlit("document");
    reveal_strlit("feed");
    reveal_strlit("figure");
    reveal_strlit("form");
    reveal_strlit("grid");
    reveal_strlit("gridcell");
    reveal_strlit("group");
    reveal_strlit("heading");
    reveal_strlit("img");
    reveal_strlit("link");
    reveal_strlit("list");
    reveal_strlit("listbox");
    reveal_strlit("listitem");
    reveal_strlit("log");
    reveal_strlit("main");
    reveal_strlit("marquee");
    reveal_strlit("math");
    reveal_strlit("menu");
    reveal_strlit("menubar");
    reveal_strlit("menuitem");
    reveal_strlit("menuitemcheckbox");
    reveal_strlit("menuitemradio");
    reveal_strlit("meter");
    reveal_strlit("navigation");
    reveal_strlit("none");
    reveal_strlit("note");
    reveal_strlit("option");
    reveal_strlit("presentation");
    reveal_strlit("progressbar");
    reveal_strlit("radio");
    reveal_strlit("radiogroup");
    reveal_strlit("region");
    reveal_strlit("row");
    reveal_strlit("rowgroup");
    reveal_strlit("rowheader");
    reveal_strlit("scrollbar");
    reveal_strlit("search");
    reveal_strlit("searchbox");
    reveal_strlit("separator");
    reveal_strlit("slider");
    reveal_strlit("spinbutton");
    reveal_strlit("status");
    reveal_strlit("switch");
    reveal_strlit("tab");
    reveal_strlit("table");
    reveal_strlit("tablist");
    reveal_strlit("tabpanel");
    reveal_strlit("term");
    reveal_strlit("textbox");
    reveal_strlit("timer");
    reveal_strlit("toolbar");
    reveal_strlit("tooltip");
    reveal_strlit("tree");
    reveal_strlit("treegrid");
    reveal_strlit("treeitem");
    reveal_strlit("command");
    reveal_strlit("composite");
    reveal_strlit("input");
    reveal_strlit("landmark");
    reveal_strlit("range");
    reveal_strlit("roletype");
    reveal_strlit("section");
    reveal_strlit("sectionhead");
    reveal_strlit("select");
    reveal_strlit("structure");
    reveal_strlit("widget");
    reveal_strlit("window");
    assert("alert"@ != "rowgroup"@) by {
        assert("alert"@.len() != "rowgroup"@.len());
    }
    assert("alertdialog"@ != "rowgroup"@) by {
        assert("alertdialog"@.len() != "rowgroup"@.len());
    }
    assert("application"@ != "rowgroup"@) by {
        assert("application"@.len() != "rowgroup"@.len());
    }
    assert("article"@ != "rowgroup"@) by {
        assert("article"@.len() != "rowgroup"@.len());
    }
    assert("banner"@ != "rowgroup"@) by {
        assert("banner"@.len() != "rowgroup"@.len());
    }
    assert("button"@ != "rowgroup"@) by {
        assert("button"@.len() != "rowgroup"@.len());
    }
    assert("cell"@ != "rowgroup"@) by {
        assert("cell"@.len() != "rowgroup"@.len());
    }
    assert("checkbox"@ != "rowgroup"@) by {
        assert("checkbox"@[0] != "rowgroup"@[0]);
    }
    assert("columnheader"@ != "rowgroup"@) by {
        assert("columnheader"@.len() != "rowgroup"@.len());
    }
    assert("combobox"@ != "rowgroup"@) by {
        assert("combobox"@[0] != "rowgroup"@[0]);
    }
    assert("complementary"@ != "rowgroup"@) by {
        assert("complementary"@.len() != "rowgroup"@.len());
    }
    assert("contentinfo"@ != "rowgroup"@) by {
        assert("contentinfo"@.len() != "rowgroup"@.len());
    }
    assert("definition"@ != "rowgroup"@) by {
        assert("definition"@.len() != "rowgroup"@.len());
    }
    assert("dialog"@ != "rowgroup"@) by {
        assert("dialog"@.len() != "rowgroup"@.len());
    }
    assert("directory"@ != "rowgroup"@) by {
        assert("directory"@.len() != "rowgroup"@.len());
    }
    assert("document"@ != "rowgroup"@) by {
        assert("document"@[0] != "rowgroup"@[0]);
    }
    assert("feed"@ != "rowgroup"@) by {
        assert("feed"@.len() != "rowgroup"@.len());
    }
    assert("figure"@ != "rowgroup"@) by {
        assert("figure"@.len() != "rowgroup"@.len());
    }
    assert("form"@ != "rowgroup"@) by {
        assert("form"@.len() != "rowgroup"@.len());
    }
    assert("grid"@ != "rowgroup"@) by {
        assert("grid"@.len() != "rowgroup"@.len());
    }
    assert("gridcell"@ != "rowgroup"@) by {
        assert("gridcell"@[0] != "rowgroup"@[0]);
    }
    assert("group"@ != "rowgroup"@) by {
        assert("group"@.len() != "rowgroup"@.len());
    }
    assert("heading"@ != "rowgroup"@) by {
        assert("heading"@.len() != "rowgroup"@.len());
    }
    assert("img"@ != "rowgroup"@) by {
        assert("img"@.len() != "rowgroup"@.len());
    }
    assert("link"@ != "rowgroup"@) by {
        assert("link"@.len() != "rowgroup"@.len());
    }
    assert("list"@ != "rowgroup"@) by {
        assert("list"@.len() != "rowgroup"@.len());
    }
    assert("listbox"@ != "rowgroup"@) by {
        assert("listbox"@.len() != "rowgroup"@.len());
    }
    assert("listitem"@ != "rowgroup"@) by {
        assert("listitem"@[0] != "rowgroup"@[0]);
    }
    assert("log"@ != "rowgroup"@) by {
        assert("log"@.len() != "rowgroup"@.len());
    }
    assert("main"@ != "rowgroup"@) by {
        assert("main"@.len() != "rowgroup"@.len());
    }
    assert("marquee"@ != "rowgroup"@) by {
        assert("marquee"@.len() != "rowgroup"@.len());
    }
    assert("math"@ != "rowgroup"@) by {
        assert("math"@.len() != "rowgroup"@.len());
    }
    assert("menu"@ != "rowgroup"@) by {
        assert("menu"@.len() != "rowgroup"@.len());
    }
    assert("menubar"@ != "rowgroup"@) by {
        assert("menubar"@.len() != "rowgroup"@.len());
    }
    assert("menuitem"@ != "rowgroup"@) by {
        assert("menuitem"@[0] != "rowgroup"@[0]);
    }
    assert("menuitemcheckbox"@ != "rowgroup"@) by {
        assert("menuitemcheckbox"@.len() != "rowgroup"@.len());
    }
    assert("menuitemradio"@ != "rowgroup"@) by {
        assert("menuitemradio"@.len() != "rowgroup"@.len());
    }
    assert("meter"@ != "rowgroup"@) by {
        assert("meter"@.len() != "rowgroup"@.len());
    }
    assert("navigation"@ != "rowgroup"@) by {
        assert("navigation"@.len() != "rowgroup"@.len());
    }
    assert("none"@ != "rowgroup"@) by {
        assert("none"@.len() != "rowgroup"@.len());
    }
    assert("note"@ != "rowgroup"@) by {
        assert("note"@.len() != "rowgroup"@.len());
    }
    assert("option"@ != "rowgroup"@) by {
        assert("option"@.len() != "rowgroup"@.len());
    }
    assert("presentation"@ != "rowgroup"@) by {
        assert("presentation"@.len() != "rowgroup"@.len());
    }
    assert("progressbar"@ != "rowgroup"@) by {
        assert("progressbar"@.len() != "rowgroup"@.len());
    }
    assert("radio"@ != "rowgroup"@) by {
        assert("radio"@.len() != "rowgroup"@.len());
    }
    assert("radiogroup"@ != "rowgroup"@) by {
        assert("radiogroup"@.len() != "rowgroup"@.len());
    }
    assert("region"@ != "rowgroup"@) by {
        assert("region"@.len() != "rowgroup"@.len());
    }
    assert("row"@ != "rowgroup"@) by {
        assert("row"@.len() != "rowgroup"@.len());
    }
    assert("rowheader"@ != "rowgroup"@) by {
        assert("rowheader"@.len() != "rowgroup"@.len());
    }
    assert("scrollbar"@ != "rowgroup"@) by {
        assert("scrollbar"@.len() != "rowgroup"@.len());
    }
    assert("search"@ != "rowgroup"@) by {
        assert("search"@.len() != "rowgroup"@.len());
    }
    assert("searchbox"@ != "rowgroup"@) by {
        assert("searchbox"@.len() != "rowgroup"@.len());
    }
    assert("separator"@ != "rowgroup"@) by {
        assert("separator"@.len() != "rowgroup"@.len());
    }
    assert("slider"@ != "rowgroup"@) by {
        assert("slider"@.len() != "rowgroup"@.len());
    }
    assert("spinbutton"@ != "rowgroup"@) by {
        assert("spinbutton"@.len() != "rowgroup"@.len());
    }
    assert("status"@ != "rowgroup"@) by {
        assert("status"@.len() != "rowgroup"@.len());
    }
    assert("switch"@ != "rowgroup"@) by {
        assert("switch"@.len() != "rowgroup"@.len());
    }
    assert("tab"@ != "rowgroup"@) by {
        assert("tab"@.len() != "rowgroup"@.len());
    }
    assert("table"@ != "rowgroup"@) by {
        assert("table"@.len() != "rowgroup"@.len());
    }
    assert("tablist"@ != "rowgroup"@) by {
        assert("tablist"@.len() != "rowgroup"@.len());
    }
    assert("tabpanel"@ != "rowgroup"@) by {
        assert("tabpanel"@[0] != "rowgroup"@[0]);
    }
    assert("term"@ != "rowgroup"@) by {
        assert("term"@.len() != "rowgroup"@.len());
    }
    assert("textbox"@ != "rowgroup"@) by {
        assert("textbox"@.len() != "rowgroup"@.len());
    }
    assert("timer"@ != "rowgroup"@) by {
        assert("timer"@.len() != "rowgroup"@.len());
    }
    assert("toolbar"@ != "rowgroup"@) by {
        assert("toolbar"@.len() != "rowgroup"@.len());
    }
    assert("tooltip"@ != "rowgroup"@) by {
        assert("tooltip"@.len() != "rowgroup"@.len());
    }
    assert("tree"@ != "rowgroup"@) by {
        assert("tree"@.len() != "rowgroup"@.len());
    }
    assert("treegrid"@ != "rowgroup"@) by {
        assert("treegrid"@[0] != "rowgroup"@[0]);
    }
    assert("treeitem"@ != "rowgroup"@) by {
        assert("treeitem"@[0] != "rowgroup"@[0]);
    }
    assert("command"@ != "rowgroup"@) by {
        assert("command"@.len() != "rowgroup"@.len());
    }
    assert("composite"@ != "rowgroup"@) by {
        assert("composite"@.len() != "rowgroup"@.len());
    }
    assert("input"@ != "rowgroup"@) by {
        assert("input"@.len() != "rowgroup"@.len());
    }
    assert("landmark"@ != "rowgroup"@) by {
        assert("landmark"@[0] != "rowgroup"@[0]);
    }
    assert("range"@ != "rowgroup"@) by {
        assert("range"@.len() != "rowgroup"@.len());
    }
    assert("roletype"@ != "rowgroup"@) by {
        assert("roletype"@[2] != "rowgroup"@[2]);
    }
    assert("section"@ != "rowgroup"@) by {
        assert("section"@.len() != "rowgroup"@.len());
    }
    assert("sectionhead"@ != "rowgroup"@) by {
        assert("sectionhead"@.len() != "rowgroup"@.len());
    }
    assert("select"@ != "rowgroup"@) by {
        assert("select"@.len() != "rowgroup"@.len());
    }
    assert("structure"@ != "rowgroup"@) by {
        assert("structure"@.len() != "rowgroup"@.len());
    }
    assert("widget"@ != "rowgroup"@) by {
        assert("widget"@.len() != "rowgroup"@.len());
    }
    assert("window"@ != "rowgroup"@) by {
        assert("window"@.len() != "rowgroup"@.len());
    }
}

proof fn role_name_unique_rowheader(b: Role)
    requires
        b.name_spec() == "rowheader"@,
    ensures
        b == Role::RowHeader,
{
    reveal_strlit("alert");
    reveal_strlit("alertdialog");
    reveal_strlit("application");
    reveal_strlit("article");
    reveal_strlit("banner");
    reveal_strlit("button");
    reveal_strlit("cell");
    reveal_strlit("checkbox");
    reveal_strlit("columnheader");
    reveal_strlit("combobox");
    reveal_strlit("complementary");
    reveal_strlit("contentinfo");
    reveal_strlit("definition");
    reveal_strlit("dialog");
    reveal_strlit("directory");
    reveal_strlit("document");
    reveal_strlit("feed");
    reveal_strlit("figure");
    reveal_strlit("form");
    reveal_strlit("grid");
    reveal_strlit("gridcell");
    reveal_strlit("group");
    reveal_strlit("heading");
    reveal_strlit("img");
    reveal_strlit("link");
    reveal_strlit("list");
    reveal_strlit("listbox");
    reveal_strlit("listitem");
    reveal_strlit("log");
    reveal_strlit("main");
    reveal_strlit("marquee");
    reveal_strlit("math");
    reveal_strlit("menu");
    reveal_strlit("menubar");
    reveal_strlit("menuitem");
    reveal_strlit("menuitemcheckbox");
    reveal_strlit("menuitemradio");
    reveal_strlit("meter");
    reveal_strlit("navigation");
    reveal_strlit("none");
    reveal_strlit("note");
    reveal_strlit("option");
    reveal_strlit("presentation");
    reveal_strlit("progressbar");
    reveal_strlit("radio");
    reveal_strlit("radiogroup");
    reveal_strlit("region");
    reveal_strlit("row");
    reveal_strlit("rowgroup");
    reveal_strlit("rowheader");
    reveal_strlit("scrollbar");
    reveal_strlit("search");
    reveal_strlit("searchbox");
    reveal_strlit("separator");
    reveal_strlit("slider");
    reveal_strlit("spinbutton");
    reveal_strlit("status");
    reveal_strlit("switch");
    reveal_strlit("tab");
    reveal_strlit("table");
    reveal_strlit("tablist");
    reveal_strlit("tabpanel");
    reveal_strlit("term");
    reveal_strlit("textbox");
    reveal_strlit("timer");
    reveal_strlit("toolbar");
    reveal_strlit("tooltip");
    reveal_strlit("tree");
    reveal_strlit("treegrid");
    reveal_strlit("treeitem");
    reveal_strlit("command");
    reveal_strlit("composite");
    reveal_strlit("input");
    reveal_strlit("landmark");
    reveal_strlit("range");
    reveal_strlit("roletype");
    reveal_strlit("section");
    reveal_strlit("sectionhead");
    reveal_strlit("select");
    reveal_strlit("structure");
    reveal_strlit("widget");
    reveal_strlit("window");
    assert("alert"@ != "rowheader"@) by {
        assert("alert"@.len() != "rowheader"@.len());
    }
    assert("alertdialog"@ != "rowheader"@) by {
        assert("alertdialog"@.len() != "rowheader"@.len());
    }
    assert("application"@ != "rowheader"@) by {
        assert("application"@.len() != "rowheader"@.len());
    }
    assert("article"@ != "rowheader"@) by {
        assert("article"@.len() != "rowheader"@.len());
    }
    assert("banner"@ != "rowheader"@) by {
        assert("banner"@.len() != "rowheader"@.len());
    }
    assert("button"@ != "rowheader"@) by {
        assert("button"@.len() != "rowheader"@.len());
    }
    assert("cell"@ != "rowheader"@) by {
        assert("cell"@.len() != "rowheader"@.len());
    }
    assert("checkbox"@ != "rowheader"@) by {
        assert("checkbox"@.len() != "rowheader"@.len());
    }
    assert("columnheader"@ != "rowheader"@) by {
        assert("columnheader"@.len() != "rowheader"@.len());
    }
    assert("combobox"@ != "rowheader"@) by {
        assert("combobox"@.len() != "rowheader"@.len());
    }
    assert("complementary"@ != "rowheader"@) by {
        assert("complementary"@.len() != "rowheader"@.len());
    }
    assert("contentinfo"@ != "rowheader"@) by {
        assert("contentinfo"@.len() != "rowheader"@.len());
    }
    assert("definition"@ != "rowheader"@) by {
        assert("definition"@.len() != "rowheader"@.len());
    }
    assert("dialog"@ != "rowheader"@) by {
        assert("dialog"@.len() != "rowheader"@.len());
    }
    assert("directory"@ != "rowheader"@) by {
        assert("directory"@[0] != "rowheader"@[0]);
    }
    assert("document"@ != "rowheader"@) by {
        assert("document"@.len() != "rowheader"@.len());
    }
    assert("feed"@ != "rowheader"@) by {
        assert("feed"@.len() != "rowheader"@.len());
    }
    assert("figure"@ != "rowheader"@) by {
        assert("figure"@.len() != "rowheader"@.len());
    }
    assert("form"@ != "rowheader"@) by {
        assert("form"@.len() != "rowheader"@.len());
    }
    assert("grid"@ != "rowheader"@) by {
        assert("grid"@.len() != "rowheader"@.len());
    }
    assert("gridcell"@ != "rowheader"@) by {
        assert("gridcell"@.len() != "rowheader"@.len());
    }
    assert("group"@ != "rowheader"@) by {
        assert("group"@.len() != "rowheader"@.len());
    }
    assert("heading"@ != "rowheader"@) by {
        assert("heading"@.len() != "rowheader"@.len());
    }
    assert("img"@ != "rowheader"@) by {
        assert("img"@.len() != "rowheader"@.len());
    }
    assert("link"@ != "rowheader"@) by {
        assert("link"@.len() != "rowheader"@.len());
    }
    assert("list"@ != "rowheader"@) by {
        assert("list"@.len() != "rowheader"@.len());
    }
    assert("listbox"@ != "rowheader"@) by {
        assert("listbox"@.len() != "rowheader"@.len());
    }
    assert("listitem"@ != "rowheader"@) by {
        assert("listitem"@.len() != "rowheader"@.len());
    }
    assert("log"@ != "rowheader"@) by {
        assert("log"@.len() != "rowheader"@.len());
    }
    assert("main"@ != "rowheader"@) by {
        assert("main"@.len() != "rowheader"@.len());
    }
    assert("marquee"@ != "rowheader"@) by {
        assert("marquee"@.len() != "rowheader"@.len());
    }
    assert("math"@ != "rowheader"@) by {
        assert("math"@.len() != "rowheader"@.len());
    }
    assert("menu"@ != "rowheader"@) by {
        assert("menu"@.len() != "rowheader"@.len());
    }
    assert("menubar"@ != "rowheader"@) by {
        assert("menubar"@.len() != "rowheader"@.len());
    }
    assert("menuitem"@ != "rowheader"@) by {
        assert("menuitem"@.len() != "rowheader"@.len());
    }
    assert("menuitemcheckbox"@ != "rowheader"@) by {
        assert("menuitemcheckbox"@.len() != "rowheader"@.len());
    }
    assert("menuitemradio"@ != "rowheader"@) by {
        assert("menuitemradio"@.len() != "rowheader"@.len());
    }
    assert("meter"@ != "rowheader"@) by {
        assert("meter"@.len() != "rowheader"@.len());
    }
    assert("navigation"@ != "rowheader"@) by {
        assert("navigation"@.len() != "rowheader"@.len());
    }
    assert("none"@ != "rowheader"@) by {
        assert("none"@.len() != "rowheader"@.len());
    }
    assert("note"@ != "rowheader"@) by {
        assert("note"@.len() != "rowheader"@.len());
    }
    assert("option"@ != "rowheader"@) by {
        assert("option"@.len() != "rowheader"@.len());
    }
    assert("presentation"@ != "rowheader"@) by {
        assert("presentation"@.len() != "rowheader"@.len());
    }
    assert("progressbar"@ != "rowheader"@) by {
        assert("progressbar"@.len() != "rowheader"@.len());
    }
    assert("radio"@ != "rowheader"@) by {
        assert("radio"@.len() != "rowheader"@.len());
    }
    assert("radiogroup"@ != "rowheader"@) by {
        assert("radiogroup"@.len() != "rowheader"@.len());
    }
    assert("region"@ != "rowheader"@) by {
        assert("region"@.len() != "rowheader"@.len());
    }
    assert("row"@ != "rowheader"@) by {
        assert("row"@.len() != "rowheader"@.len());
    }
    assert("rowgroup"@ != "rowheader"@) by {
        assert("rowgroup"@.len() != "rowheader"@.len());
    }
    assert("scrollbar"@ != "rowheader"@) by {
        assert("scrollbar"@[0] != "rowheader"@[0]);
    }
    assert("search"@ != "rowheader"@) by {
        assert("search"@.len() != "rowheader"@.len());
    }
    assert("searchbox"@ != "rowheader"@) by {
        assert("searchbox"@[0] != "rowheader"@[0]);
    }
    assert("separator"@ != "rowheader"@) by {
        assert("separator"@[0] != "rowheader"@[0]);
    }
    assert("slider"@ != "rowheader"@) by {
        assert("slider"@.len() != "rowheader"@.len());
    }
    assert("spinbutton"@ != "rowheader"@) by {
        assert("spinbutton"@.len() != "rowheader"@.len());
    }
    assert("status"@ != "rowheader"@) by {
        assert("status"@.len() != "rowheader"@.len());
    }
    assert("switch"@ != "rowheader"@) by {
        assert("switch"@.len() != "rowheader"@.len());
    }
    assert("tab"@ != "rowheader"@) by {
        assert("tab"@.len() != "rowheader"@.len());
    }
    assert("table"@ != "rowheader"@) by {
        assert("table"@.len() != "rowheader"@.len());
    }
    assert("tablist"@ != "rowheader"@) by {
        assert("tablist"@.len() != "rowheader"@.len());
    }
    assert("tabpanel"@ != "rowheader"@) by {
        assert("tabpanel"@.len() != "rowheader"@.len());
    }
    assert("term"@ != "rowheader"@) by {
        assert("term"@.len() != "rowheader"@.len());
    }
    assert("textbox"@ != "rowheader"@) by {
        assert("textbox"@.len() != "rowheader"@.len());
    }
    assert("timer"@ != "rowheader"@) by {
        assert("timer"@.len() != "rowheader"@.len());
    }
    assert("toolbar"@ != "rowheader"@) by {
        assert("toolbar"@.len() != "rowheader"@.len());
    }
    assert("tooltip"@ != "rowheader"@) by {
        assert("tooltip"@.len() != "rowheader"@.len());
    }
    assert("tree"@ != "rowheader"@) by {
        assert("tree"@.len() != "rowheader"@.len());
    }
    assert("treegrid"@ != "rowheader"@) by {
        assert("treegrid"@.len() != "rowheader"@.len());
    }
    assert("treeitem"@ != "rowheader"@) by {
        assert("treeitem"@.len() != "rowheader"@.len());
    }
    assert("command"@ != "rowheader"@) by {
        assert("command"@.len() != "rowheader"@.len());
    }
    assert("composite"@ != "rowheader"@) by {
        assert("composite"@[0] != "rowheader"@[0]);
    }
    assert("input"@ != "rowheader"@) by {
        assert("input"@.len() != "rowheader"@.len());
    }
    assert("landmark"@ != "rowheader"@) by {
        assert("landmark"@.len() != "rowheader"@.len());
    }
    assert("range"@ != "rowheader"@) by {
        assert("range"@.len() != "rowheader"@.len());
    }
    assert("roletype"@ != "rowheader"@) by {
        assert("roletype"@.len() != "rowheader"@.len());
    }
    assert("section"@ != "rowheader"@) by {
        assert("section"@.len() != "rowheader"@.len());
    }
    assert("sectionhead"@ != "rowheader"@) by {
        assert("sectionhead"@.len() != "rowheader"@.len());
    }
    assert("select"@ != "rowheader"@) by {
        assert("select"@.len() != "rowheader"@.len());
    }
    assert("structure"@ != "rowheader"@) by {
        assert("structure"@[0] != "rowheader"@[0]);
    }
    assert("widget"@ != "rowheader"@) by {
        assert("widget"@.len() != "rowheader"@.len());
    }
    assert("window"@ != "rowheader"@) by {
        assert("window"@.len() != "rowheader"@.len());
    }
}

proof fn role_name_unique_scrollbar(b: Role)
    requires
        b.name_spec() == "scrollbar"@,
    ensures
        b == Role::ScrollBar,
{
    reveal_strlit("alert");
    reveal_strlit("alertdialog");
    reveal_strlit("application");
    reveal_strlit("article");
    reveal_strlit("banner");
    reveal_strlit("button");
    reveal_strlit("cell");
    reveal_strlit("checkbox");
    reveal_strlit("columnheader");
    reveal_strlit("combobox");
    reveal_strlit("complementary");
    reveal_strlit("contentinfo");
    reveal_strlit("definition");
    reveal_strlit("dialog");
    reveal_strlit("directory");
    reveal_strlit("document");
    reveal_strlit("feed");
    reveal_strlit("figure");
    reveal_strlit("form");
    reveal_strlit("grid");
    reveal_strlit("gridcell");
    reveal_strlit("group");
    reveal_strlit("heading");
    reveal_strlit("img");
    reveal_strlit("link");
    reveal_strlit("list");
    reveal_strlit("listbox");
    reveal_strlit("listitem");
    reveal_strlit("log");
    reveal_strlit("main");
    reveal_strlit("marquee");
    reveal_strlit("math");
    reveal_strlit("menu");
    reveal_strlit("menubar");
    reveal_strlit("menuitem");
    reveal_strlit("menuitemcheckbox");
    reveal_strlit("menuitemradio");
    reveal_strlit("meter");
    reveal_strlit("navigation");
    reveal_strlit("none");
    reveal_strlit("note");
    reveal_strlit("option");
    reveal_strlit("presentation");
    reveal_strlit("progressbar");
    reveal_strlit("radio");
    reveal_strlit("radiogroup");
    reveal_strlit("region");
    reveal_strlit("row");
    reveal_strlit("rowgroup");
    reveal_strlit("rowheader");
    reveal_strlit("scrollbar");
    reveal_strlit("search");
    reveal_strlit("searchbox");
    reveal_strlit("separator");
    reveal_strlit("slider");
    reveal_strlit("spinbutton");
    reveal_strlit("status");
    reveal_strlit("switch");
    reveal_strlit("tab");
    reveal_strlit("table");
    reveal_strlit("tablist");
    reveal_strlit("tabpanel");
    reveal_strlit("term");
    reveal_strlit("textbox");
    reveal_strlit("timer");
    reveal_strlit("toolbar");
    reveal_strlit("tooltip");
    reveal_strlit("tree");
    reveal_strlit("treegrid");
    reveal_strlit("treeitem");
    reveal_strlit("command");
    reveal_strlit("composite");
    reveal_strlit("input");
    reveal_strlit("landmark");
    reveal_strlit("range");
    reveal_strlit("roletype");
    reveal_strlit("section");
    reveal_strlit("sectionhead");
    reveal_strlit("select");
    reveal_strlit("structure");
    reveal_strlit("widget");
    reveal_strlit("window");
    assert("alert"@ != "scrollbar"@) by {
        assert("alert"@.len() != "scrollbar"@.len());
    }
    assert("alertdialog"@ != "scrollbar"@) by {
        assert("alertdialog"@.len() != "scrollbar"@.len());
    }
    assert("application"@ != "scrollbar"@) by {
        assert("application"@.len() != "scrollbar"@.len());
    }
    assert("article"@ != "scrollbar"@) by {
        assert("article"@.len() != "scrollbar"@.len());
    }
    assert("banner"@ != "scrollbar"@) by {
        assert("banner"@.len() != "scrollbar"@.len());
    }
    assert("button"@ != "scrollbar"@) by {
        assert("button"@.len() != "scrollbar"@.len());
    }
    assert("cell"@ != "scrollbar"@) by {
        assert("cell"@.len() != "scrollbar"@.len());
    }
    assert("checkbox"@ != "scrollbar"@) by {
        assert("checkbox"@.len() != "scrollbar"@.len());
    }
    assert("columnheader"@ != "scrollbar"@) by {
        assert("columnheader"@.len() != "scrollbar"@.len());
    }
    assert("combobox"@ != "scrollbar"@) by {
        assert("combobox"@.len() != "scrollbar"@.len());
    }
    assert("complementary"@ != "scrollbar"@) by {
        assert("complementary"@.len() != "scrollbar"@.len());
    }
    assert("contentinfo"@ != "scrollbar"@) by {
        assert("contentinfo"@.len() != "scrollbar"@.len());
    }
    assert("definition"@ != "scrollbar"@) by {
        assert("definition"@.len() != "scrollbar"@.len());
    }
    assert("dialog"@ != "scrollbar"@) by {
        assert("dialog"@.len() != "scrollbar"@.len());
    }
    assert("directory"@ != "scrollbar"@) by {
        assert("directory"@[0] != "scrollbar"@[0]);
    }
    assert("document"@ != "scrollbar"@) by {
        assert("document"@.len() != "scrollbar"@.len());
    }
    assert("feed"@ != "scrollbar"@) by {
        assert("feed"@.len() != "scrollbar"@.len());
    }
    assert("figure"@ != "scrollbar"@) by {
        assert("figure"@.len() != "scrollbar"@.len());
    }
    assert("form"@ != "scrollbar"@) by {
        assert("form"@.len() != "scrollbar"@.len());
    }
    assert("grid"@ != "scrollbar"@) by {
        assert("grid"@.len() != "scrollbar"@.len());
    }
    assert("gridcell"@ != "scrollbar"@) by {
        assert("gridcell"@.len() != "scrollbar"@.len());
    }
    assert("group"@ != "scrollbar"@) by {
        assert("group"@.len() != "scrollbar"@.len());
    }
    assert("heading"@ != "scrollbar"@) by {
        assert("heading"@.len() != "scrollbar"@.len());
    }
    assert("img"@ != "scrollbar"@) by {
        assert("img"@.len() != "scrollbar"@.len());
    }
    assert("link"@ != "scrollbar"@) by {
        assert("link"@.len() != "scrollbar"@.len());
    }
    assert("list"@ != "scrollbar"@) by {
        assert("list"@.len() != "scrollbar"@.len());
    }
    assert("listbox"@ != "scrollbar"@) by {
        assert("listbox"@.len() != "scrollbar"@.len());
    }
    assert("listitem"@ != "scrollbar"@) by {
        assert("listitem"@.len() != "scrollbar"@.len());
    }
    assert("log"@ != "scrollbar"@) by {
        assert("log"@.len() != "scrollbar"@.len());
    }
    assert("main"@ != "scrollbar"@) by {
        assert("main"@.len() != "scrollbar"@.len());
    }
    assert("marquee"@ != "scrollbar"@) by {
        assert("marquee"@.len() != "scrollbar"@.len());
    }
    assert("math"@ != "scrollbar"@) by {
        assert("math"@.len() != "scrollbar"@.len());
    }
    assert("menu"@ != "scrollbar"@) by {
        assert("menu"@.len() != "scrollbar"@.len());
    }
    assert("menubar"@ != "scrollbar"@) by {
        assert("menubar"@.len() != "scrollbar"@.len());
    }
    assert("menuitem"@ != "scrollbar"@) by {
        assert("menuitem"@.len() != "scrollbar"@.len());
    }
    assert("menuitemcheckbox"@ != "scrollbar"@) by {
        assert("menuitemcheckbox"@.len() != "scrollbar"@.len());
    }
    assert("menuitemradio"@ != "scrollbar"@) by {
        assert("menuitemradio"@.len() != "scrollbar"@.len());
    }
    assert("meter"@ != "scrollbar"@) by {
        assert("meter"@.len() != "scrollbar"@.len());
    }
    assert("navigation"@ != "scrollbar"@) by {
        assert("navigation"@.len() != "scrollbar"@.len());
    }
    assert("none"@ != "scrollbar"@) by {
        assert("none"@.len() != "scrollbar"@.len());
    }
    assert("note"@ != "scrollbar"@) by {
        assert("note"@.len() != "scrollbar"@.len());
    }
    assert("option"@ != "scrollbar"@) by {
        assert("option"@.len() != "scrollbar"@.len());
    }
    assert("presentation"@ != "scrollbar"@) by {
        assert("presentation"@.len() != "scrollbar"@.len());
    }
    assert("progressbar"@ != "scrollbar"@) by {
        assert("progressbar"@.len() != "scrollbar"@.len());
    }
    assert("radio"@ != "scrollbar"@) by {
        assert("radio"@.len() != "scrollbar"@.len());
    }
    assert("radiogroup"@ != "scrollbar"@) by {
        assert("radiogroup"@.len() != "scrollbar"@.len());
    }
    assert("region"@ != "scrollbar"@) by {
        assert("region"@.len() != "scrollbar"@.len());
    }
    assert("row"@ != "scrollbar"@) by {
        assert("row"@.len() != "scrollbar"@.len());
    }
    assert("rowgroup"@ != "scrollbar"@) by {
        assert("rowgroup"@.len() != "scrollbar"@.len());
    }
    assert("rowheader"@ != "scrollbar"@) by {
        assert("rowheader"@[0] != "scrollbar"@[0]);
    }
    assert("search"@ != "scrollbar"@) by {
        assert("search"@.len() != "scrollbar"@.len());
    }
    assert("searchbox"@ != "scrollbar"@) by {
        assert("searchbox"@[1] != "scrollbar"@[1]);
    }
    assert("separator"@ != "scrollbar"@) by {
        assert("separator"@[1] != "scrollbar"@[1]);
    }
    assert("slider"@ != "scrollbar"@) by {
        assert("slider"@.len() != "scrollbar"@.len());
    }
    assert("spinbutton"@ != "scrollbar"@) by {
        assert("spinbutton"@.len() != "scrollbar"@.len());
    }
    assert("status"@ != "scrollbar"@) by {
        assert("status"@.len() != "scrollbar"@.len());
    }
    assert("switch"@ != "scrollbar"@) by {
        assert("switch"@.len() != "scrollbar"@.len());
    }
    assert("tab"@ != "scrollbar"@) by {
        assert("tab"@.len() != "scrollbar"@.len());
    }
    assert("table"@ != "scrollbar"@) by {
        assert("table"@.len() != "scrollbar"@.len());
    }
    assert("tablist"@ != "scrollbar"@) by {
        assert("tablist"@.len() != "scrollbar"@.len());
    }
    assert("tabpanel"@ != "scrollbar"@) by {
        assert("tabpanel"@.len() != "scrollbar"@.len());
    }
    assert("term"@ != "scrollbar"@) by {
        assert("term"@.len() != "scrollbar"@.len());
    }
    assert("textbox"@ != "scrollbar"@) by {
        assert("textbox"@.len() != "scrollbar"@.len());
    }
    assert("timer"@ != "scrollbar"@) by {
        assert("timer"@.len() != "scrollbar"@.len());
    }
    assert("toolbar"@ != "scrollbar"@) by {
        assert("toolbar"@.len() != "scrollbar"@.len());
    }
    assert("tooltip"@ != "scrollbar"@) by {
        assert("tooltip"@.len() != "scrollbar"@.len());
    }
    assert("tree"@ != "scrollbar"@) by {
        assert("tree"@.len() != "scrollbar"@.len());
    }
    assert("treegrid"@ != "scrollbar"@) by {
        assert("treegrid"@.len() != "scrollbar"@.len());
    }
    assert("treeitem"@ != "scrollbar"@) by {
        assert("treeitem"@.len() != "scrollbar"@.len());
    }
    assert("command"@ != "scrollbar"@) by {
        assert("command"@.len() != "scrollbar"@.len());
    }
    assert("composite"@ != "scrollbar"@) by {
        assert("composite"@[0] != "scrollbar"@[0]);
    }
    assert("input"@ != "scrollbar"@) by {
        assert("input"@.len() != "scrollbar"@.len());
    }
    assert("landmark"@ != "scrollbar"@) by {
        assert("landmark"@.len() != "scrollbar"@.len());
    }
    assert("range"@ != "scrollbar"@) by {
        assert("range"@.len() != "scrollbar"@.len());
    }
    assert("roletype"@ != "scrollbar"@) by {
        assert("roletype"@.len() != "scrollbar"@.len());
    }
    assert("section"@ != "scrollbar"@) by {
        assert("section"@.len() != "scrollbar"@.len());
    }
    assert("sectionhead"@ != "scrollbar"@) by {
        assert("sectionhead"@.len() != "scrollbar"@.len());
    }
    assert("select"@ != "scrollbar"@) by {
        assert("select"@.len() != "scrollbar"@.len());
    }
    assert("structure"@ != "scrollbar"@) by {
        assert("structure"@[1] != "scrollbar"@[1]);
    }
    assert("widget"@ != "scrollbar"@) by {
        assert("widget"@.len() != "scrollbar"@.len());
    }
    assert("window"@ != "scrollbar"@) by {
        assert("window"@.len() != "scrollbar"@.len());
    }
}

proof fn role_name_unique_search(b: Role)
    requires
        b.name_spec() == "search"@,
    ensures
        b == Role::Search,
{
    reveal_strlit("alert");
    reveal_strlit("alertdialog");
    reveal_strlit("application");
    reveal_strlit("article");
    reveal_strlit("banner");
    reveal_strlit("button");
    reveal_strlit("cell");
    reveal_strlit("checkbox");
    reveal_strlit("columnheader");
    reveal_strlit("combobox");
    reveal_strlit("complementary");
    reveal_strlit("contentinfo");
    reveal_strlit("definition");
    reveal_strlit("dialog");
    reveal_strlit("directory");
    reveal_strlit("document");
    reveal_strlit("feed");
    reveal_strlit("figure");
    reveal_strlit("form");
    reveal_strlit("grid");
    reveal_strlit("gridcell");
    reveal_strlit("group");
    reveal_strlit("heading");
    reveal_strlit("img");
    reveal_strlit("link");
    reveal_strlit("list");
    reveal_strlit("listbox");
    reveal_strlit("listitem");
    reveal_strlit("log");
    reveal_strlit("main");
    reveal_strlit("marquee");
    reveal_strlit("math");
    reveal_strlit("menu");
    reveal_strlit("menubar");
    reveal_strlit("menuitem");
    reveal_strlit("menuitemcheckbox");
    reveal_strlit("menuitemradio");
    reveal_strlit("meter");
    reveal_strlit("navigation");
    reveal_strlit("none");
    reveal_strlit("note");
    reveal_strlit("option");
    reveal_strlit("presentation");
    reveal_strlit("progressbar");
    reveal_strlit("radio");
    reveal_strlit("radiogroup");
    reveal_strlit("region");
    reveal_strlit("row");
    reveal_strlit("rowgroup");
    reveal_strlit("rowheader");
    reveal_strlit("scrollbar");
    reveal_strlit("search");
    reveal_strlit("searchbox");
    reveal_strlit("separator");
    reveal_strlit("slider");
    reveal_strlit("spinbutton");
    reveal_strlit("status");
    reveal_strlit("switch");
    reveal_strlit("tab");
    reveal_strlit("table");
    reveal_strlit("tablist");
    reveal_strlit("tabpanel");
    reveal_strlit("term");
    reveal_strlit("textbox");
    reveal_strlit("timer");
    reveal_strlit("toolbar");
    reveal_strlit("tooltip");
    reveal_strlit("tree");
    reveal_strlit("treegrid");
    reveal_strlit("treeitem");
    reveal_strlit("command");
    reveal_strlit("composite");
    reveal_strlit("input");
    reveal_strlit("landmark");
    reveal_strlit("range");
    reveal_strlit("roletype");
    reveal_strlit("section");
    reveal_strlit("sectionhead");
    reveal_strlit("select");
    reveal_strlit("structure");
    reveal_strlit("widget");
    reveal_strlit("window");
    assert("alert"@ != "search"@) by {
        assert("alert"@.len() != "search"@.len());
    }
    assert("alertdialog"@ != "search"@) by {
        assert("alertdialog"@.len() != "search"@.len());
    }
    assert("application"@ != "search"@) by {
        assert("application"@.len() != "search"@.len());
    }
    assert("article"@ != "search"@) by {
        assert("article"@.len() != "search"@.len());
    }
    assert("banner"@ != "search"@) by {
        assert("banner"@[0] != "search"@[0]);
    }
    assert("button"@ != "search"@) by {
        assert("button"@[0] != "search"@[0]);
    }
    assert("cell"@ != "search"@) by {
        assert("cell"@.len() != "search"@.len());
    }
    assert("checkbox"@ != "search"@) by {
        assert("checkbox"@.len() != "search"@.len());
    }
    assert("columnheader"@ != "search"@) by {
        assert("columnheader"@.len() != "search"@.len());
    }
    assert("combobox"@ != "search"@) by {
        assert("combobox"@.len() != "search"@.len());
    }
    assert("complementary"@ != "search"@) by {
        assert("complementary"@.len() != "search"@.len());
    }
    assert("contentinfo"@ != "search"@) by {
        assert("contentinfo"@.len() != "search"@.len());
    }
    assert("definition"@ != "search"@) by {
        assert("definition"@.len() != "search"@.len());
    }
    assert("dialog"@ != "search"@) by {
        assert("dialog"@[0] != "search"@[0]);
    }
    assert("directory"@ != "search"@) by {
        assert("directory"@.len() != "search"@.len());
    }
    assert("document"@ != "search"@) by {
        assert("document"@.len() != "search"@.len());
    }
    assert("feed"@ != "search"@) by {
        assert("feed"@.len() != "search"@.len());
    }
    assert("figure"@ != "search"@) by {
        assert("figure"@[0] != "search"@[0]);
    }
    assert("form"@ != "search"@) by {
        assert("form"@.len() != "search"@.len());
    }
    assert("grid"@ != "search"@) by {
        assert("grid"@.len() != "search"@.len());
    }
    assert("gridcell"@ != "search"@) by {
        assert("gridcell"@.len() != "search"@.len());
    }
    assert("group"@ != "search"@) by {
        assert("group"@.len() != "search"@.len());
    }
    assert("heading"@ != "search"@) by {
        assert("heading"@.len() != "search"@.len());
    }
    assert("img"@ != "search"@) by {
        assert("img"@.len() != "search"@.len());
    }
    assert("link"@ != "search"@) by {
        assert("link"@.len() != "search"@.len());
    }
    assert("list"@ != "search"@) by {
        assert("list"@.len() != "search"@.len());
    }
    assert("listbox"@ != "search"@) by {
        assert("listbox"@.len() != "search"@.len());
    }
    assert("listitem"@ != "search"@) by {
        assert("listitem"@.len() != "search"@.len());
    }
    assert("log"@ != "search"@) by {
        assert("log"@.len() != "search"@.len());
    }
    assert("main"@ != "search"@) by {
        assert("main"@.len() != "search"@.len());
    }
    assert("marquee"@ != "search"@) by {
        assert("marquee"@.len() != "search"@.len());
    }
    assert("math"@ != "search"@) by {
        assert("math"@.len() != "search"@.len());
    }
    assert("menu"@ != "search"@) by {
        assert("menu"@.len() != "search"@.len());
    }
    assert("menubar"@ != "search"@) by {
        assert("menubar"@.len() != "search"@.len());
    }
    assert("menuitem"@ != "search"@) by {
        assert("menuitem"@.len() != "search"@.len());
    }
    assert("menuitemcheckbox"@ != "search"@) by {
        assert("menuitemcheckbox"@.len() != "search"@.len());
    }
    assert("menuitemradio"@ != "search"@) by {
        assert("menuitemradio"@.len() != "search"@.len());
    }
    assert("meter"@ != "search"@) by {
        assert("meter"@.len() != "search"@.len());
    }
    assert("navigation"@ != "search"@) by {
        assert("navigation"@.len() != "search"@.len());
    }
    assert("none"@ != "search"@) by {
        assert("none"@.len() != "search"@.len());
    }
    assert("note"@ != "search"@) by {
        assert("note"@.len() != "search"@.len());
    }
    assert("option"@ != "search"@) by {
        assert("option"@[0] != "search"@[0]);
    }
    assert("presentation"@ != "search"@) by {
        assert("presentation"@.len() != "search"@.len());
    }
    assert("progressbar"@ != "search"@) by {
        assert("progressbar"@.len() != "search"@.len());
    }
    assert("radio"@ != "search"@) by {
        assert("radio"@.len() != "search"@.len());
    }
    assert("radiogroup"@ != "search"@) by {
        assert("radiogroup"@.len() != "search"@.len());
    }
    assert("region"@ != "search"@) by {
        assert("region"@[0] != "search"@[0]);
    }
    assert("row"@ != "search"@) by {
        assert("row"@.len() != "search"@.len());
    }
    assert("rowgroup"@ != "search"@) by {
        assert("rowgroup"@.len() != "search"@.len());
    }
    assert("rowheader"@ != "search"@) by {
        assert("rowheader"@.len() != "search"@.len());
    }
    assert("scrollbar"@ != "search"@) by {
        assert("scrollbar"@.len() != "search"@.len());
    }
    assert("searchbox"@ != "search"@) by {
        assert("searchbox"@.len() != "search"@.len());
    }
    assert("separator"@ != "search"@) by {
        assert("separator"@.len() != "search"@.len());
    }
    assert("slider"@ != "search"@) by {
        assert("slider"@[1] != "search"@[1]);
    }
    assert("spinbutton"@ != "search"@) by {
        assert("spinbutton"@.len() != "search"@.len());
    }
    assert("status"@ != "search"@) by {
        assert("status"@[1] != "search"@[1]);
    }
    assert("switch"@ != "search"@) by {
        assert("switch"@[1] != "search"@[1]);
    }
    assert("tab"@ != "search"@) by {
        assert("tab"@.len() != "search"@.len());
    }
    assert("table"@ != "search"@) by {
        assert("table"@.len() != "search"@.len());
    }
    assert("tablist"@ != "search"@) by {
        assert("tablist"@.len() != "search"@.len());
    }
    assert("tabpanel"@ != "search"@) by {
        assert("tabpanel"@.len() != "search"@.len());
    }
    assert("term"@ != "search"@) by {
        assert("term"@.len() != "search"@.len());
    }
    assert("textbox"@ != "search"@) by {
        assert("textbox"@.len() != "search"@.len());
    }
    assert("timer"@ != "search"@) by {
        assert("timer"@.len() != "search"@.len());
    }
    assert("toolbar"@ != "search"@) by {
        assert("toolbar"@.len() != "search"@.len());
    }
    assert("tooltip"@ != "search"@) by {
        assert("tooltip"@.len() != "search"@.len());
    }
    assert("tree"@ != "search"@) by {
        assert("tree"@.len() != "search"@.len());
    }
    assert("treegrid"@ != "search"@) by {
        assert("treegrid"@.len() != "search"@.len());
    }
    assert("treeitem"@ != "search"@) by {
        assert("treeitem"@.len() != "search"@.len());
    }
    assert("command"@ != "search"@) by {
        assert("command"@.len() != "search"@.len());
    }
    assert("composite"@ != "search"@) by {
        assert("composite"@.len() != "search"@.len());
    }
    assert("input"@ != "search"@) by {
        assert("input"@.len() != "search"@.len());
    }
    assert("landmark"@ != "search"@) by {
        assert("landmark"@.len() != "search"@.len());
    }
    assert("range"@ != "search"@) by {
        assert("range"@.len() != "search"@.len());
    }
    assert("roletype"@ != "search"@) by {
        assert("roletype"@.len() != "search"@.len());
    }
    assert("section"@ != "search"@) by {
        assert("section"@.len() != "search"@.len());
    }
    assert("sectionhead"@ != "search"@) by {
        assert("sectionhead"@.len() != "search"@.len());
    }
    assert("select"@ != "search"@) by {
        assert("select"@[2] != "search"@[2]);
    }
    assert("structure"@ != "search"@) by {
        assert("structure"@.len() != "search"@.len());
    }
    assert("widget"@ != "search"@) by {
        assert("widget"@[0] != "search"@[0]);
    }
    assert("window"@ != "search"@) by {
        assert("window"@[0] != "search"@[0]);
    }
}

proof fn role_name_unique_searchbox(b: Role)
    requires
        b.name_spec() == "searchbox"@,
    ensures
        b == Role::SearchBox,
{
    reveal_strlit("alert");
    reveal_strlit("alertdialog");
    reveal_strlit("application");
    reveal_strlit("article");
    reveal_strlit("banner");
    reveal_strlit("button");
    reveal_strlit("cell");
    reveal_strlit("checkbox");
    reveal_strlit("columnheader");
    reveal_strlit("combobox");
    reveal_strlit("complementary");
    reveal_strlit("contentinfo");
    reveal_strlit("definition");
    reveal_strlit("dialog");
    reveal_strlit("directory");
    reveal_strlit("document");
    reveal_strlit("feed");
    reveal_strlit("figure");
    reveal_strlit("form");
    reveal_strlit("grid");
    reveal_strlit("gridcell");
    reveal_strlit("group");
    reveal_strlit("heading");
    reveal_strlit("img");
    reveal_strlit("link");
    reveal_strlit("list");
    reveal_strlit("listbox");
    reveal_strlit("listitem");
    reveal_strlit("log");
    reveal_strlit("main");
    reveal_strlit("marquee");
    reveal_strlit("math");
    reveal_strlit("menu");
    reveal_strlit("menubar");
    reveal_strlit("menuitem");
    reveal_strlit("menuitemcheckbox");
    reveal_strlit("menuitemradio");
    reveal_strlit("meter");
    reveal_strlit("navigation");
    reveal_strlit("none");
    reveal_strlit("note");
    reveal_strlit("option");
    reveal_strlit("presentation");
    reveal_strlit("progressbar");
    reveal_strlit("radio");
    reveal_strlit("radiogroup");
    reveal_strlit("region");
    reveal_strlit("row");
    reveal_strlit("rowgroup");
    reveal_strlit("rowheader");
    reveal_strlit("scrollbar");
    reveal_strlit("search");
    reveal_strlit("searchbox");
    reveal_strlit("separator");
    reveal_strlit("slider");
    reveal_strlit("spinbutton");
    reveal_strlit("status");
    reveal_strlit("switch");
    reveal_strlit("tab");
    reveal_strlit("table");
    reveal_strlit("tablist");
    reveal_strlit("tabpanel");
    reveal_strlit("term");
    reveal_strlit("textbox");
    reveal_strlit("timer");
    reveal_strlit("toolbar");
    reveal_strlit("tooltip");
    reveal_strlit("tree");
    reveal_strlit("treegrid");
    reveal_strlit("treeitem");
    reveal_strlit("command");
    reveal_strlit("composite");
    reveal_strlit("input");
    reveal_strlit("landmark");
    reveal_strlit("range");
    reveal_strlit("roletype");
    reveal_strlit("section");
    reveal_strlit("sectionhead");
    reveal_strlit("select");
    reveal_strlit("structure");
    reveal_strlit("widget");
    reveal_strlit("window");
    assert("alert"@ != "searchbox"@) by {
        assert("alert"@.len() != "searchbox"@.len());
    }
    assert("alertdialog"@ != "searchbox"@) by {
        assert("alertdialog"@.len() != "searchbox"@.len());
    }
    assert("application"@ != "searchbox"@) by {
        assert("application"@.len() != "searchbox"@.len());
    }
    assert("article"@ != "searchbox"@) by {
        assert("article"@.len() != "searchbox"@.len());
    }
    assert("banner"@ != "searchbox"@) by {
        assert("banner"@.len() != "searchbox"@.len());
    }
    assert("button"@ != "searchbox"@) by {
        assert("button"@.len() != "searchbox"@.len());
    }
    assert("cell"@ != "searchbox"@) by {
        assert("cell"@.len() != "searchbox"@.len());
    }
    assert("checkbox"@ != "searchbox"@) by {
        assert("checkbox"@.len() != "searchbox"@.len());
    }
    assert("columnheader"@ != "searchbox"@) by {
        assert("columnheader"@.len() != "searchbox"@.len());
    }
    assert("combobox"@ != "searchbox"@) by {
        assert("combobox"@.len() != "searchbox"@.len());
    }
    assert("complementary"@ != "searchbox"@) by {
        assert("complementary"@.len() != "searchbox"@.len());
    }
    assert("contentinfo"@ != "searchbox"@) by {
        assert("contentinfo"@.len() != "searchbox"@.len());
    }
    assert("definition"@ != "searchbox"@) by {
        assert("definition"@.len() != "searchbox"@.len());
    }
    assert("dialog"@ != "searchbox"@) by {
        assert("dialog"@.len() != "searchbox"@.len());
    }
    assert("directory"@ != "searchbox"@) by {
        assert("directory"@[0] != "searchbox"@[0]);
    }
    assert("document"@ != "searchbox"@) by {
        assert("document"@.len() != "searchbox"@.len());
    }
    assert("feed"@ != "searchbox"@) by {
        assert("feed"@.len() != "searchbox"@.len());
    }
    assert("figure"@ != "searchbox"@) by {
        assert("figure"@.len() != "searchbox"@.len());
    }
    assert("form"@ != "searchbox"@) by {
        assert("form"@.len() != "searchbox"@.len());
    }
    assert("grid"@ != "searchbox"@) by {
        assert("grid"@.len() != "searchbox"@.len());
    }
    assert("gridcell"@ != "searchbox"@) by {
        assert("gridcell"@.len() != "searchbox"@.len());
    }
    assert("group"@ != "searchbox"@) by {
        assert("group"@.len() != "searchbox"@.len());
    }
    assert("heading"@ != "searchbox"@) by {
        assert("heading"@.len() != "searchbox"@.len());
    }
    assert("img"@ != "searchbox"@) by {
        assert("img"@.len() != "searchbox"@.len());
    }
    assert("link"@ != "searchbox"@) by {
        assert("link"@.len() != "searchbox"@.len());
    }
    assert("list"@ != "searchbox"@) by {
        assert("list"@.len() != "searchbox"@.len());
    }
    assert("listbox"@ != "searchbox"@) by {
        assert("listbox"@.len() != "searchbox"@.len());
    }
    assert("listitem"@ != "searchbox"@) by {
        assert("listitem"@.len() != "searchbox"@.len());
    }
    assert("log"@ != "searchbox"@) by {
        assert("log"@.len() != "searchbox"@.len());
    }
    assert("main"@ != "searchbox"@) by {
        assert("main"@.len() != "searchbox"@.len());
    }
    assert("marquee"@ != "searchbox"@) by {
        assert("marquee"@.len() != "searchbox"@.len());
    }
    assert("math"@ != "searchbox"@) by {
        assert("math"@.len() != "searchbox"@.len());
    }
    assert("menu"@ != "searchbox"@) by {
        assert("menu"@.len() != "searchbox"@.len());
    }
    assert("menubar"@ != "searchbox"@) by {
        assert("menubar"@.len() != "searchbox"@.len());
    }
    assert("menuitem"@ != "searchbox"@) by {
        assert("menuitem"@.len() != "searchbox"@.len());
    }
    assert("menuitemcheckbox"@ != "searchbox"@) by {
        assert("menuitemcheckbox"@.len() != "searchbox"@.len());
    }
    assert("menuitemradio"@ != "searchbox"@) by {
        assert("menuitemradio"@.len() != "searchbox"@.len());
    }
    assert("meter"@ != "searchbox"@) by {
        assert("meter"@.len() != "searchbox"@.len());
    }
    assert("navigation"@ != "searchbox"@) by {
        assert("navigation"@.len() != "searchbox"@.len());
    }
    assert("none"@ != "searchbox"@) by {
        assert("none"@.len() != "searchbox"@.len());
    }
    assert("note"@ != "searchbox"@) by {
        assert("note"@.len() != "searchbox"@.len());
    }
    assert("option"@ != "searchbox"@) by {
        assert("option"@.len() != "searchbox"@.len());
    }
    assert("presentation"@ != "searchbox"@) by {
        assert("presentation"@.len() != "searchbox"@.len());
    }
    assert("progressbar"@ != "searchbox"@) by {
        assert("progressbar"@.len() != "searchbox"@.len());
    }
    assert("radio"@ != "searchbox"@) by {
        assert("radio"@.len() != "searchbox"@.len());
    }
    assert("radiogroup"@ != "searchbox"@) by {
        assert("radiogroup"@.len() != "searchbox"@.len());
    }
    assert("region"@ != "searchbox"@) by {
        assert("region"@.len() != "searchbox"@.len());
    }
    assert("row"@ != "searchbox"@) by {
        assert("row"@.len() != "searchbox"@.len());
    }
    assert("rowgroup"@ != "searchbox"@) by {
        assert("rowgroup"@.len() != "searchbox"@.len());
    }
    assert("rowheader"@ != "searchbox"@) by {
        assert("rowheader"@[0] != "searchbox"@[0]);
    }
    assert("scrollbar"@ != "searchbox"@) by {
        assert("scrollbar"@[1] != "searchbox"@[1]);
    }
    assert("search"@ != "searchbox"@) by {
        assert("search"@.len() != "searchbox"@.len());
    }
    assert("separator"@ != "searchbox"@) by {
        assert("separator"@[2] != "searchbox"@[2]);
    }
    assert("slider"@ != "searchbox"@) by {
        assert("slider"@.len() != "searchbox"@.len());
    }
    assert("spinbutton"@ != "searchbox"@) by {
        assert("spinbutton"@.len() != "searchbox"@.len());
    }
    assert("status"@ != "searchbox"@) by {
        assert("status"@.len() != "searchbox"@.len());
    }
    assert("switch"@ != "searchbox"@) by {
        assert("switch"@.len() != "searchbox"@.len());
    }
    assert("tab"@ != "searchbox"@) by {
        assert("tab"@.len() != "searchbox"@.len());
    }
    assert("table"@ != "searchbox"@) by {
        assert("table"@.len() != "searchbox"@.len());
    }
    assert("tablist"@ != "searchbox"@) by {
        assert("tablist"@.len() != "searchbox"@.len());
    }
    assert("tabpanel"@ != "searchbox"@) by {
        assert("tabpanel"@.len() != "searchbox"@.len());
    }
    assert("term"@ != "searchbox"@) by {
        assert("term"@.len() != "searchbox"@.len());
    }
    assert("textbox"@ != "searchbox"@) by {
        assert("textbox"@.len() != "searchbox"@.len());
    }
    assert("timer"@ != "searchbox"@) by {
        assert("timer"@.len() != "searchbox"@.len());
    }
    assert("toolbar"@ != "searchbox"@) by {
        assert("toolbar"@.len() != "searchbox"@.len());
    }
    assert("tooltip"@ != "searchbox"@) by {
        assert("tooltip"@.len() != "searchbox"@.len());
    }
    assert("tree"@ != "searchbox"@) by {
        assert("tree"@.len() != "searchbox"@.len());
    }
    assert("treegrid"@ != "searchbox"@) by {
        assert("treegrid"@.len() != "searchbox"@.len());
    }
    assert("treeitem"@ != "searchbox"@) by {
        assert("treeitem"@.len() != "searchbox"@.len());
    }
    assert("command"@ != "searchbox"@) by {
        assert("command"@.len() != "searchbox"@.len());
    }
    assert("composite"@ != "searchbox"@) by {
        assert("composite"@[0] != "searchbox"@[0]);
    }
    assert("input"@ != "searchbox"@) by {
        assert("input"@.len() != "searchbox"@.len());
    }
    assert("landmark"@ != "searchbox"@) by {
        assert("landmark"@.len() != "searchbox"@.len());
    }
    assert("range"@ != "searchbox"@) by {
        assert("range"@.len() != "searchbox"@.len());
    }
    assert("roletype"@ != "searchbox"@) by {
        assert("roletype"@.len() != "searchbox"@.len());
    }
    assert("section"@ != "searchbox"@) by {
        assert("section"@.len() != "searchbox"@.len());
    }
    assert("sectionhead"@ != "searchbox"@) by {
        assert("sectionhead"@.len() != "searchbox"@.len());
    }
    assert("select"@ != "searchbox"@) by {
        assert("select"@.len() != "searchbox"@.len());
    }
    assert("structure"@ != "searchbox"@) by {
        assert("structure"@[1] != "searchbox"@[1]);
    }
    assert("widget"@ != "searchbox"@) by {
        assert("widget"@.len() != "searchbox"@.len());
    }
    assert("window"@ != "searchbox"@) by {
        assert("window"@.len() != "searchbox"@.len());
    }
}

proof fn role_name_unique_separator(b: Role)
    requires
        b.name_spec() == "separator"@,
    ensures
        b == Role::Separator,
{
    reveal_strlit("alert");
    reveal_strlit("alertdialog");
    reveal_strlit("application");
    reveal_strlit("article");
    reveal_strlit("banner");
    reveal_strlit("button");
    reveal_strlit("cell");
    reveal_strlit("checkbox");
    reveal_strlit("columnheader");
    reveal_strlit("combobox");
    reveal_strlit("complementary");
    reveal_strlit("contentinfo");
    reveal_strlit("definition");
    reveal_strlit("dialog");
    reveal_strlit("directory");
    reveal_strlit("document");
    reveal_strlit("feed");
    reveal_strlit("figure");
    reveal_strlit("form");
    reveal_strlit("grid");
    reveal_strlit("gridcell");
    reveal_strlit("group");
    reveal_strlit("heading");
    reveal_strlit("img");
    reveal_strlit("link");
    reveal_strlit("list");
    reveal_strlit("listbox");
    reveal_strlit("listitem");
    reveal_strlit("log");
    reveal_strlit("main");
    reveal_strlit("marquee");
    reveal_strlit("math");
    reveal_strlit("menu");
    reveal_strlit("menubar");
    reveal_strlit("menuitem");
    reveal_strlit("menuitemcheckbox");
    reveal_strlit("menuitemradio");
    reveal_strlit("meter");
    reveal_strlit("navigation");
    reveal_strlit("none");
    reveal_strlit("note");
    reveal_strlit("option");
    reveal_strlit("presentation");
    reveal_strlit("progressbar");
    reveal_strlit("radio");
    reveal_strlit("radiogroup");
    reveal_strlit("region");
    reveal_strlit("row");
    reveal_strlit("rowgroup");
    reveal_strlit("rowheader");
    reveal_strlit("scrollbar");
    reveal_strlit("search");
    reveal_strlit("searchbox");
    reveal_strlit("separator");
    reveal_strlit("slider");
    reveal_strlit("spinbutton");
    reveal_strlit("status");
    reveal_strlit("switch");
    reveal_strlit("tab");
    reveal_strlit("table");
    reveal_strlit("tablist");
    reveal_strlit("tabpanel");
    reveal_strlit("term");
    reveal_strlit("textbox");
    reveal_strlit("timer");
    reveal_strlit("toolbar");
    reveal_strlit("tooltip");
    reveal_strlit("tree");
    reveal_strlit("treegrid");
    reveal_strlit("treeitem");
    reveal_strlit("command");
    reveal_strlit("composite");
    reveal_strlit("input");
    reveal_strlit("landmark");
    reveal_strlit("range");
    reveal_strlit("roletype");
    reveal_strlit("section");
    reveal_strlit("sectionhead");
    reveal_strlit("select");
    reveal_strlit("structure");
    reveal_strlit("widget");
    reveal_strlit("window");
    assert("alert"@ != "separator"@) by {
        assert("alert"@.len() != "separator"@.len());
    }
    assert("alertdialog"@ != "separator"@) by {
        assert("alertdialog"@.len() != "separator"@.len());
    }
    assert("application"@ != "separator"@) by {
        assert("application"@.len() != "separator"@.len());
    }
    assert("article"@ != "separator"@) by {
        assert("article"@.len() != "separator"@.len());
    }
    assert("banner"@ != "separator"@) by {
        assert("banner"@.len() != "separator"@.len());
    }
    assert("button"@ != "separator"@) by {
        assert("button"@.len() != "separator"@.len());
    }
    assert("cell"@ != "separator"@) by {
        assert("cell"@.len() != "separator"@.len());
    }
    assert("checkbox"@ != "separator"@) by {
        assert("checkbox"@.len() != "separator"@.len());
    }
    assert("columnheader"@ != "separator"@) by {
        assert("columnheader"@.len() != "separator"@.len());
    }
    assert("combobox"@ != "separator"@) by {
        assert("combobox"@.len() != "separator"@.len());
    }
    assert("complementary"@ != "separator"@) by {
        assert("complementary"@.len() != "separator"@.len());
    }
    assert("contentinfo"@ != "separator"@) by {
        assert("contentinfo"@.len() != "separator"@.len());
    }
    assert("definition"@ != "separator"@) by {
        assert("definition"@.len() != "separator"@.len());
    }
    assert("dialog"@ != "separator"@) by {
        assert("dialog"@.len() != "separator"@.len());
    }
    assert("directory"@ != "separator"@) by {
        assert("directory"@[0] != "separator"@[0]);
    }
    assert("document"@ != "separator"@) by {
        assert("document"@.len() != "separator"@.len());
    }
    assert("feed"@ != "separator"@) by {
        assert("feed"@.len() != "separator"@.len());
    }
    assert("figure"@ != "separator"@) by {
        assert("figure"@.len() != "separator"@.len());
    }
    assert("form"@ != "separator"@) by {
        assert("form"@.len() != "separator"@.len());
    }
    assert("grid"@ != "separator"@) by {
        assert("grid"@.len() != "separator"@.len());
    }
    assert("gridcell"@ != "separator"@) by {
        assert("gridcell"@.len() != "separator"@.len());
    }
    assert("group"@ != "separator"@) by {
        assert("group"@.len() != "separator"@.len());
    }
    assert("heading"@ != "separator"@) by {
        assert("heading"@.len() != "separator"@.len());
    }
    assert("img"@ != "separator"@) by {
        assert("img"@.len() != "separator"@.len());
    }
    assert("link"@ != "separator"@) by {
        assert("link"@.len() != "separator"@.len());
    }
    assert("list"@ != "separator"@) by {
        assert("list"@.len() != "separator"@.len());
    }
    assert("listbox"@ != "separator"@) by {
        assert("listbox"@.len() != "separator"@.len());
    }
    assert("listitem"@ != "separator"@) by {
        assert("listitem"@.len() != "separator"@.len());
    }
    assert("log"@ != "separator"@) by {
        assert("log"@.len() != "separator"@.len());
    }
    assert("main"@ != "separator"@) by {
        assert("main"@.len() != "separator"@.len());
    }
    assert("marquee"@ != "separator"@) by {
        assert("marquee"@.len() != "separator"@.len());
    }
    assert("math"@ != "separator"@) by {
        assert("math"@.len() != "separator"@.len());
    }
    assert("menu"@ != "separator"@) by {
        assert("menu"@.len() != "separator"@.len());
    }
    assert("menubar"@ != "separator"@) by {
        assert("menubar"@.len() != "separator"@.len());
    }
    assert("menuitem"@ != "separator"@) by {
        assert("menuitem"@.len() != "separator"@.len());
    }
    assert("menuitemcheckbox"@ != "separator"@) by {
        assert("menuitemcheckbox"@.len() != "separator"@.len());
    }
    assert("menuitemradio"@ != "separator"@) by {
        assert("menuitemradio"@.len() != "separator"@.len());
    }
    assert("meter"@ != "separator"@) by {
        assert("meter"@.len() != "separator"@.len());
    }
    assert("navigation"@ != "separator"@) by {
        assert("navigation"@.len() != "separator"@.len());
    }
    assert("none"@ != "separator"@) by {
        assert("none"@.len() != "separator"@.len());
    }
    assert("note"@ != "separator"@) by {
        assert("note"@.len() != "separator"@.len());
    }
    assert("option"@ != "separator"@) by {
        assert("option"@.len() != "separator"@.len());
    }
    assert("presentation"@ != "separator"@) by {
        assert("presentation"@.len() != "separator"@.len());
    }
    assert("progressbar"@ != "separator"@) by {
        assert("progressbar"@.len() != "separator"@.len());
    }
    assert("radio"@ != "separator"@) by {
        assert("radio"@.len() != "separator"@.len());
    }
    assert("radiogroup"@ != "separator"@) by {
        assert("radiogroup"@.len() != "separator"@.len());
    }
    assert("region"@ != "separator"@) by {
        assert("region"@.len() != "separator"@.len());
    }
    assert("row"@ != "separator"@) by {
        assert("row"@.len() != "separator"@.len());
    }
    assert("rowgroup"@ != "separator"@) by {
        assert("rowgroup"@.len() != "separator"@.len());
    }
    assert("rowheader"@ != "separator"@) by {
        assert("rowheader"@[0] != "separator"@[0]);
    }
    assert("scrollbar"@ != "separator"@) by {
        assert("scrollbar"@[1] != "separator"@[1]);
    }
    assert("search"@ != "separator"@) by {
        assert("search"@.len() != "separator"@.len());
    }
    assert("searchbox"@ != "separator"@) by {
        assert("searchbox"@[2] != "separator"@[2]);
    }
    assert("slider"@ != "separator"@) by {
        assert("slider"@.len() != "separator"@.len());
    }
    assert("spinbutton"@ != "separator"@) by {
        assert("spinbutton"@.len() != "separator"@.len());
    }
    assert("status"@ != "separator"@) by {
        assert("status"@.len() != "separator"@.len());
    }
    assert("switch"@ != "separator"@) by {
        assert("switch"@.len() != "separator"@.len());
    }
    assert("tab"@ != "separator"@) by {
        assert("tab"@.len() != "separator"@.len());
    }
    assert("table"@ != "separator"@) by {
        assert("table"@.len() != "separator"@.len());
    }
    assert("tablist"@ != "separator"@) by {
        assert("tablist"@.len() != "separator"@.len());
    }
    assert("tabpanel"@ != "separator"@) by {
        assert("tabpanel"@.len() != "separator"@.len());
    }
    assert("term"@ != "separator"@) by {
        assert("term"@.len() != "separator"@.len());
    }
    assert("textbox"@ != "separator"@) by {
        assert("textbox"@.len() != "separator"@.len());
    }
    assert("timer"@ != "separator"@) by {
        assert("timer"@.len() != "separator"@.len());
    }
    assert("toolbar"@ != "separator"@) by {
        assert("toolbar"@.len() != "separator"@.len());
    }
    assert("tooltip"@ != "separator"@) by {
        assert("tooltip"@.len() != "separator"@.len());
    }
    assert("tree"@ != "separator"@) by {
        assert("tree"@.len() != "separator"@.len());
    }
    assert("treegrid"@ != "separator"@) by {
        assert("treegrid"@.len() != "separator"@.len());
    }
    assert("treeitem"@ != "separator"@) by {
        assert("treeitem"@.len() != "separator"@.len());
    }
    assert("command"@ != "separator"@) by {
        assert("command"@.len() != "separator"@.len());
    }
    assert("composite"@ != "separator"@) by {
        assert("composite"@[0] != "separator"@[0]);
    }
    assert("input"@ != "separator"@) by {
        assert("input"@.len() != "separator"@.len());
    }
    assert("landmark"@ != "separator"@) by {
        assert("landmark"@.len() != "separator"@.len());
    }
    assert("range"@ != "separator"@) by {
        assert("range"@.len() != "separator"@.len());
    }
    assert("roletype"@ != "separator"@) by {
        assert("roletype"@.len() != "separator"@.len());
    }
    assert("section"@ != "separator"@) by {
        assert("section"@.len() != "separator"@.len());
    }
    assert("sectionhead"@ != "separator"@) by {
        assert("sectionhead"@.len() != "separator"@.len());
    }
    assert("select"@ != "separator"@) by {
        assert("select"@.len() != "separator"@.len());
    }
    assert("structure"@ != "separator"@) by {
        assert("structure"@[1] != "separator"@[1]);
    }
    assert("widget"@ != "separator"@) by {
        assert("widget"@.len() != "separator"@.len());
    }
    assert("window"@ != "separator"@) by {
        assert("window"@.len() != "separator"@.len());
    }
}

proof fn role_name_unique_slider(b: Role)
    requires
        b.name_spec() == "slider"@,
    ensures
        b == Role::Slider,
{
    reveal_strlit("alert");
    reveal_strlit("alertdialog");
    reveal_strlit("application");
    reveal_strlit("article");
    reveal_strlit("banner");
    reveal_strlit("button");
    reveal_strlit("cell");
    reveal_strlit("checkbox");
    reveal_strlit("columnheader");
    reveal_strlit("combobox");
    reveal_strlit("complementary");
    reveal_strlit("contentinfo");
    reveal_strlit("definition");
    reveal_strlit("dialog");
    reveal_strlit("directory");
    reveal_strlit("document");
    reveal_strlit("feed");
    reveal_strlit("figure");
    reveal_strlit("form");
    reveal_strlit("grid");
    reveal_strlit("gridcell");
    reveal_strlit("group");
    reveal_strlit("heading");
    reveal_strlit("img");
    reveal_strlit("link");
    reveal_strlit("list");
    reveal_strlit("listbox");
    reveal_strlit("listitem");
    reveal_strlit("log");
    reveal_strlit("main");
    reveal_strlit("marquee");
    reveal_strlit("math");
    reveal_strlit("menu");
    reveal_strlit("menubar");
    reveal_strlit("menuitem");
    reveal_strlit("menuitemcheckbox");
    reveal_strlit("menuitemradio");
    reveal_strlit("meter");
    reveal_strlit("navigation");
    reveal_strlit("none");
    reveal_strlit("note");
    reveal_strlit("option");
    reveal_strlit("presentation");
    reveal_strlit("progressbar");
    reveal_strlit("radio");
    reveal_strlit("radiogroup");
    reveal_strlit("region");
    reveal_strlit("row");
    reveal_strlit("rowgroup");
    reveal_strlit("rowheader");
    reveal_strlit("scrollbar");
    reveal_strlit("search");
    reveal_strlit("searchbox");
    reveal_strlit("separator");
    reveal_strlit("slider");
    reveal_strlit("spinbutton");
    reveal_strlit("status");
    reveal_strlit("switch");
    reveal_strlit("tab");
    reveal_strlit("table");
    reveal_strlit("tablist");
    reveal_strlit("tabpanel");
    reveal_strlit("term");
    reveal_strlit("textbox");
    reveal_strlit("timer");
    reveal_strlit("toolbar");
    reveal_strlit("tooltip");
    reveal_strlit("tree");
    reveal_strlit("treegrid");
    reveal_strlit("treeitem");
    reveal_strlit("command");
    reveal_strlit("composite");
    reveal_strlit("input");
    reveal_strlit("landmark");
    reveal_strlit("range");
    reveal_strlit("roletype");
    reveal_strlit("section");
    reveal_strlit("sectionhead");
    reveal_strlit("select");
    reveal_strlit("structure");
    reveal_strlit("widget");
    reveal_strlit("window");
    assert("alert"@ != "slider"@) by {
        assert("alert"@.len() != "slider"@.len());
    }
    assert("alertdialog"@ != "slider"@) by {
        assert("alertdialog"@.len() != "slider"@.len());
    }
    assert("application"@ != "slider"@) by {
        assert("application"@.len() != "slider"@.len());
    }
    assert("article"@ != "slider"@) by {
        assert("article"@.len() != "slider"@.len());
    }
    assert("banner"@ != "slider"@) by {
        assert("banner"@[0] != "slider"@[0]);
    }
    assert("button"@ != "slider"@) by {
        assert("button"@[0] != "slider"@[0]);
    }
    assert("cell"@ != "slider"@) by {
        assert("cell"@.len() != "slider"@.len());
    }
    assert("checkbox"@ != "slider"@) by {
        assert("checkbox"@.len() != "slider"@.len());
    }
    assert("columnheader"@ != "slider"@) by {
        assert("columnheader"@.len() != "slider"@.len());
    }
    assert("combobox"@ != "slider"@) by {
        assert("combobox"@.len() != "slider"@.len());
    }
    assert("complementary"@ != "slider"@) by {
        assert("complementary"@.len() != "slider"@.len());
    }
    assert("contentinfo"@ != "slider"@) by {
        assert("contentinfo"@.len() != "slider"@.len());
    }
    assert("definition"@ != "slider"@) by {
        assert("definition"@.len() != "slider"@.len());
    }
    assert("dialog"@ != "slider"@) by {
        assert("dialog"@[0] != "slider"@[0]);
    }
    assert("directory"@ != "slider"@) by {
        assert("directory"@.len() != "slider"@.len());
    }
    assert("document"@ != "slider"@) by {
        assert("document"@.len() != "slider"@.len());
    }
    assert("feed"@ != "slider"@) by {
        assert("feed"@.len() != "slider"@.len());
    }
    assert("figure"@ != "slider"@) by {
        assert("figure"@[0] != "slider"@[0]);
    }
    assert("form"@ != "slider"@) by {
        assert("form"@.len() != "slider"@.len());
    }
    assert("grid"@ != "slider"@) by {
        assert("grid"@.len() != "slider"@.len());
    }
    assert("gridcell"@ != "slider"@) by {
        assert("gridcell"@.len() != "slider"@.len());
    }
    assert("group"@ != "slider"@) by {
        assert("group"@.len() != "slider"@.len());
    }
    assert("heading"@ != "slider"@) by {
        assert("heading"@.len() != "slider"@.len());
    }
    assert("img"@ != "slider"@) by {
        assert("img"@.len() != "slider"@.len());
    }
    assert("link"@ != "slider"@) by {
        assert("link"@.len() != "slider"@.len());
    }
    assert("list"@ != "slider"@) by {
        assert("list"@.len() != "slider"@.len());
    }
    assert("listbox"@ != "slider"@) by {
        assert("listbox"@.len() != "slider"@.len());
    }
    assert("listitem"@ != "slider"@) by {
        assert("listitem"@.len() != "slider"@.len());
    }
    assert("log"@ != "slider"@) by {
        assert("log"@.len() != "slider"@.len());
    }
    assert("main"@ != "slider"@) by {
        assert("main"@.len() != "slider"@.len());
    }
    assert("marquee"@ != "slider"@) by {
        assert("marquee"@.len() != "slider"@.len());
    }
    assert("math"@ != "slider"@) by {
        assert("math"@.len() != "slider"@.len());
    }
    assert("menu"@ != "slider"@) by {
        assert("menu"@.len() != "slider"@.len());
    }
    assert("menubar"@ != "slider"@) by {
        assert("menubar"@.len() != "slider"@.len());
    }
    assert("menuitem"@ != "slider"@) by {
        assert("menuitem"@.len() != "slider"@.len());
    }
    assert("menuitemcheckbox"@ != "slider"@) by {
        assert("menuitemcheckbox"@.len() != "slider"@.len());
    }
    assert("menuitemradio"@ != "slider"@) by {
        assert("menuitemradio"@.len() != "slider"@.len());
    }
    assert("meter"@ != "slider"@) by {
        assert("meter"@.len() != "slider"@.len());
    }
    assert("navigation"@ != "slider"@) by {
        assert("navigation"@.len() != "slider"@.len());
    }
    assert("none"@ != "slider"@) by {
        assert("none"@.len() != "slider"@.len());
    }
    assert("note"@ != "slider"@) by {
        assert("note"@.len() != "slider"@.len());
    }
    assert("option"@ != "slider"@) by {
        assert("option"@[0] != "slider"@[0]);
    }
    assert("presentation"@ != "slider"@) by {
        assert("presentation"@.len() != "slider"@.len());
    }
    assert("progressbar"@ != "slider"@) by {
        assert("progressbar"@.len() != "slider"@.len());
    }
    assert("radio"@ != "slider"@) by {
        assert("radio"@.len() != "slider"@.len());
    }
    assert("radiogroup"@ != "slider"@) by {
        assert("radiogroup"@.len() != "slider"@.len());
    }
    assert("region"@ != "slider"@) by {
        assert("region"@[0] != "slider"@[0]);
    }
    assert("row"@ != "slider"@) by {
        assert("row"@.len() != "slider"@.len());
    }
    assert("rowgroup"@ != "slider"@) by {
        assert("rowgroup"@.len() != "slider"@.len());
    }
    assert("rowheader"@ != "slider"@) by {
        assert("rowheader"@.len() != "slider"@.len());
    }
    assert("scrollbar"@ != "slider"@) by {
        assert("scrollbar"@.len() != "slider"@.len());
    }
    assert("search"@ != "slider"@) by {
        assert("search"@[1] != "slider"@[1]);
    }
    assert("searchbox"@ != "slider"@) by {
        assert("searchbox"@.len() != "slider"@.len());
    }
    assert("separator"@ != "slider"@) by {
        assert("separator"@.len() != "slider"@.len());
    }
    assert("spinbutton"@ != "slider"@) by {
        assert("spinbutton"@.len() != "slider"@.len());
    }
    assert("status"@ != "slider"@) by {
        assert("status"@[1] != "slider"@[1]);
    }
    assert("switch"@ != "slider"@) by {
        assert("switch"@[1] != "slider"@[1]);
    }
    assert("tab"@ != "slider"@) by {
        assert("tab"@.len() != "slider"@.len());
    }
    assert("table"@ != "slider"@) by {
        assert("table"@.len() != "slider"@.len());
    }
    assert("tablist"@ != "slider"@) by {
        assert("tablist"@.len() != "slider"@.len());
    }
    assert("tabpanel"@ != "slider"@) by {
        assert("tabpanel"@.len() != "slider"@.len());
    }
    assert("term"@ != "slider"@) by {
        assert("term"@.len() != "slider"@.len());
    }
    assert("textbox"@ != "slider"@) by {
        assert("textbox"@.len() != "slider"@.len());
    }
    assert("timer"@ != "slider"@) by {
        assert("timer"@.len() != "slider"@.len());
    }
    assert("toolbar"@ != "slider"@) by {
        assert("toolbar"@.len() != "slider"@.len());
    }
    assert("tooltip"@ != "slider"@) by {
        assert("tooltip"@.len() != "slider"@.len());
    }
    assert("tree"@ != "slider"@) by {
        assert("tree"@.len() != "slider"@.len());
    }
    assert("treegrid"@ != "slider"@) by {
        assert("treegrid"@.len() != "slider"@.len());
    }
    assert("treeitem"@ != "slider"@) by {
        assert("treeitem"@.len() != "slider"@.len());
    }
    assert("command"@ != "slider"@) by {
        assert("command"@.len() != "slider"@.len());
    }
    assert("composite"@ != "slider"@) by {
        assert("composite"@.len() != "slider"@.len());
    }
    assert("input"@ != "slider"@) by {
        assert("input"@.len() != "slider"@.len());
    }
    assert("landmark"@ != "slider"@) by {
        assert("landmark"@.len() != "slider"@.len());
    }
    assert("range"@ != "slider"@) by {
        assert("range"@.len() != "slider"@.len());
    }
    assert("roletype"@ != "slider"@) by {
        assert("roletype"@.len() != "slider"@.len());
    }
    assert("section"@ != "slider"@) by {
        assert("section"@.len() != "slider"@.len());
    }
    assert("sectionhead"@ != "slider"@) by {
        assert("sectionhead"@.len() != "slider"@.len());
    }
    assert("select"@ != "slider"@) by {
        assert("select"@[1] != "slider"@[1]);
    }
    assert("structure"@ != "slider"@) by {
        assert("structure"@.len() != "slider"@.len());
    }
    assert("widget"@ != "slider"@) by {
        assert("widget"@[0] != "slider"@[0]);
    }
    assert("window"@ != "slider"@) by {
        assert("window"@[0] != "slider"@[0]);
    }
}

proof fn role_name_unique_spinbutton(b: Role)
    requires
        b.name_spec() == "spinbutton"@,
    ensures
        b == Role::SpinButton,
{
    reveal_strlit("alert");
    reveal_strlit("alertdialog");
    reveal_strlit("application");
    reveal_strlit("article");
    reveal_strlit("banner");
    reveal_strlit("button");
    reveal_strlit("cell");
    reveal_strlit("checkbox");
    reveal_strlit("columnheader");
    reveal_strlit("combobox");
    reveal_strlit("complementary");
    reveal_strlit("contentinfo");
    reveal_strlit("definition");
    reveal_strlit("dialog");
    reveal_strlit("directory");
    reveal_strlit("document");
    reveal_strlit("feed");
    reveal_strlit("figure");
    reveal_strlit("form");
    reveal_strlit("grid");
    reveal_strlit("gridcell");
    reveal_strlit("group");
    reveal_strlit("heading");
    reveal_strlit("img");
    reveal_strlit("link");
    reveal_strlit("list");
    reveal_strlit("listbox");
    reveal_strlit("listitem");
    reveal_strlit("log");
    reveal_strlit("main");
    reveal_strlit("marquee");
    reveal_strlit("math");
    reveal_strlit("menu");
    reveal_strlit("menubar");
    reveal_strlit("menuitem");
    reveal_strlit("menuitemcheckbox");
    reveal_strlit("menuitemradio");
    reveal_strlit("meter");
    reveal_strlit("navigation");
    reveal_strlit("none");
    reveal_strlit("note");
    reveal_strlit("option");
    reveal_strlit("presentation");
    reveal_strlit("progressbar");
    reveal_strlit("radio");
    reveal_strlit("radiogroup");
    reveal_strlit("region");
    reveal_strlit("row");
    reveal_strlit("rowgroup");
    reveal_strlit("rowheader");
    reveal_strlit("scrollbar");
    reveal_strlit("search");
    reveal_strlit("searchbox");
    reveal_strlit("separator");
    reveal_strlit("slider");
    reveal_strlit("spinbutton");
    reveal_strlit("status");
    reveal_strlit("switch");
    reveal_strlit("tab");
    reveal_strlit("table");
    reveal_strlit("tablist");
    reveal_strlit("tabpanel");
    reveal_strlit("term");
    reveal_strlit("textbox");
    reveal_strlit("timer");
    reveal_strlit("toolbar");
    reveal_strlit("tooltip");
    reveal_strlit("tree");
    reveal_strlit("treegrid");
    reveal_strlit("treeitem");
    reveal_strlit("command");
    reveal_strlit("composite");
    reveal_strlit("input");
    reveal_strlit("landmark");
    reveal_strlit("range");
    reveal_strlit("roletype");
    reveal_strlit("section");
    reveal_strlit("sectionhead");
    reveal_strlit("select");
    reveal_strlit("structure");
    reveal_strlit("widget");
    reveal_strlit("window");
    assert("alert"@ != "spinbutton"@) by {
        assert("alert"@.len() != "spinbutton"@.len());
    }
    assert("alertdialog"@ != "spinbutton"@) by {
        assert("alertdialog"@.len() != "spinbutton"@.len());
    }
    assert("application"@ != "spinbutton"@) by {
        assert("application"@.len() != "spinbutton"@.len());
    }
    assert("article"@ != "spinbutton"@) by {
        assert("article"@.len() != "spinbutton"@.len());
    }
    assert("banner"@ != "spinbutton"@) by {
        assert("banner"@.len() != "spinbutton"@.len());
    }
    assert("button"@ != "spinbutton"@) by {
        assert("button"@.len() != "spinbutton"@.len());
    }
    assert("cell"@ != "spinbutton"@) by {
        assert("cell"@.len() != "spinbutton"@.len());
    }
    assert("checkbox"@ != "spinbutton"@) by {
        assert("checkbox"@.len() != "spinbutton"@.len());
    }
    assert("columnheader"@ != "spinbutton"@) by {
        assert("columnheader"@.len() != "spinbutton"@.len());
    }
    assert("combobox"@ != "spinbutton"@) by {
        assert("combobox"@.len() != "spinbutton"@.len());
    }
    assert("complementary"@ != "spinbutton"@) by {
        assert("complementary"@.len() != "spinbutton"@.len());
    }
    assert("contentinfo"@ != "spinbutton"@) by {
        assert("contentinfo"@.len() != "spinbutton"@.len());
    }
    assert("definition"@ != "spinbutton"@) by {
        assert("definition"@[0] != "spinbutton"@[0]);
    }
    assert("dialog"@ != "spinbutton"@) by {
        assert("dialog"@.len() != "spinbutton"@.len());
    }
    assert("directory"@ != "spinbutton"@) by {
        assert("directory"@.len() != "spinbutton"@.len());
    }
    assert("document"@ != "spinbutton"@) by {
        assert("document"@.len() != "spinbutton"@.len());
    }
    assert("feed"@ != "spinbutton"@) by {
        assert("feed"@.len() != "spinbutton"@.len());
    }
    assert("figure"@ != "spinbutton"@) by {
        assert("figure"@.len() != "spinbutton"@.len());
    }
    assert("form"@ != "spinbutton"@) by {
        assert("form"@.len() != "spinbutton"@.len());
    }
    assert("grid"@ != "spinbutton"@) by {
        assert("grid"@.len() != "spinbutton"@.len());
    }
    assert("gridcell"@ != "spinbutton"@) by {
        assert("gridcell"@.len() != "spinbutton"@.len());
    }
    assert("group"@ != "spinbutton"@) by {
        assert("group"@.len() != "spinbutton"@.len());
    }
    assert("heading"@ != "spinbutton"@) by {
        assert("heading"@.len() != "spinbutton"@.len());
    }
    assert("img"@ != "spinbutton"@) by {
        assert("img"@.len() != "spinbutton"@.len());
    }
    assert("link"@ != "spinbutton"@) by {
        assert("link"@.len() != "spinbutton"@.len());
    }
    assert("list"@ != "spinbutton"@) by {
        assert("list"@.len() != "spinbutton"@.len());
    }
    assert("listbox"@ != "spinbutton"@) by {
        assert("listbox"@.len() != "spinbutton"@.len());
    }
    assert("listitem"@ != "spinbutton"@) by {
        assert("listitem"@.len() != "spinbutton"@.len());
    }
    assert("log"@ != "spinbutton"@) by {
        assert("log"@.len() != "spinbutton"@.len());
    }
    assert("main"@ != "spinbutton"@) by {
        assert("main"@.len() != "spinbutton"@.len());
    }
    assert("marquee"@ != "spinbutton"@) by {
        assert("marquee"@.len() != "spinbutton"@.len());
    }
    assert("math"@ != "spinbutton"@) by {
        assert("math"@.len() != "spinbutton"@.len());
    }
    assert("menu"@ != "spinbutton"@) by {
        assert("menu"@.len() != "spinbutton"@.len());
    }
    assert("menubar"@ != "spinbutton"@) by {
        assert("menubar"@.len() != "spinbutton"@.len());
    }
    assert("menuitem"@ != "spinbutton"@) by {
        assert("menuitem"@.len() != "spinbutton"@.len());
    }
    assert("menuitemcheckbox"@ != "spinbutton"@) by {
        assert("menuitemcheckbox"@.len() != "spinbutton"@.len());
    }
    assert("menuitemradio"@ != "spinbutton"@) by {
        assert("menuitemradio"@.len() != "spinbutton"@.len());
    }
    assert("meter"@ != "spinbutton"@) by {
        assert("meter"@.len() != "spinbutton"@.len());
    }
    assert("navigation"@ != "spinbutton"@) by {
        assert("navigation"@[0] != "spinbutton"@[0]);
    }
    assert("none"@ != "spinbutton"@) by {
        assert("none"@.len() != "spinbutton"@.len());
    }
    assert("note"@ != "spinbutton"@) by {
        assert("note"@.len() != "spinbutton"@.len());
    }
    assert("option"@ != "spinbutton"@) by {
        assert("option"@.len() != "spinbutton"@.len());
    }
    assert("presentation"@ != "spinbutton"@) by {
        assert("presentation"@.len() != "spinbutton"@.len());
    }
    assert("progressbar"@ != "spinbutton"@) by {
        assert("progressbar"@.len() != "spinbutton"@.len());
    }
    assert("radio"@ != "spinbutton"@) by {
        assert("radio"@.len() != "spinbutton"@.len());
    }
    assert("radiogroup"@ != "spinbutton"@) by {
        assert("radiogroup"@[0] != "spinbutton"@[0]);
    }
    assert("region"@ != "spinbutton"@) by {
        assert("region"@.len() != "spinbutton"@.len());
    }
    assert("row"@ != "spinbutton"@) by {
        assert("row"@.len() != "spinbutton"@.len());
    }
    assert("rowgroup"@ != "spinbutton"@) by {
        assert("rowgroup"@.len() != "spinbutton"@.len());
    }
    assert("rowheader"@ != "spinbutton"@) by {
        assert("rowheader"@.len() != "spinbutton"@.len());
    }
    assert("scrollbar"@ != "spinbutton"@) by {
        assert("scrollbar"@.len() != "spinbutton"@.len());
    }
    assert("search"@ != "spinbutton"@) by {
        assert("search"@.len() != "spinbutton"@.len());
    }
    assert("searchbox"@ != "spinbutton"@) by {
        assert("searchbox"@.len() != "spinbutton"@.len());
    }
    assert("separator"@ != "spinbutton"@) by {
        assert("separator"@.len() != "spinbutton"@.len());
    }
    assert("slider"@ != "spinbutton"@) by {
        assert("slider"@.len() != "spinbutton"@.len());
    }
    assert("status"@ != "spinbutton"@) by {
        assert("status"@.len() != "spinbutton"@.len());
    }
    assert("switch"@ != "spinbutton"@) by {
        assert("switch"@.len() != "spinbutton"@.len());
    }
    assert("tab"@ != "spinbutton"@) by {
        assert("tab"@.len() != "spinbutton"@.len());
    }
    assert("table"@ != "spinbutton"@) by {
        assert("table"@.len() != "spinbutton"@.len());
    }
    assert("tablist"@ != "spinbutton"@) by {
        assert("tablist"@.len() != "spinbutton"@.len());
    }
    assert("tabpanel"@ != "spinbutton"@) by {
        assert("tabpanel"@.len() != "spinbutton"@.len());
    }
    assert("term"@ != "spinbutton"@) by {
        assert("term"@.len() != "spinbutton"@.len());
    }
    assert("textbox"@ != "spinbutton"@) by {
        assert("textbox"@.len() != "spinbutton"@.len());
    }
    assert("timer"@ != "spinbutton"@) by {
        assert("timer"@.len() != "spinbutton"@.len());
    }
    assert("toolbar"@ != "spinbutton"@) by {
        assert("toolbar"@.len() != "spinbutton"@.len());
    }
    assert("tooltip"@ != "spinbutton"@) by {
        assert("tooltip"@.len() != "spinbutton"@.len());
    }
    assert("tree"@ != "spinbutton"@) by {
        assert("tree"@.len() != "spinbutton"@.len());
    }
    assert("treegrid"@ != "spinbutton"@) by {
        assert("treegrid"@.len() != "spinbutton"@.len());
    }
    assert("treeitem"@ != "spinbutton"@) by {
        assert("treeitem"@.len() != "spinbutton"@.len());
    }
    assert("command"@ != "spinbutton"@) by {
        assert("command"@.len() != "spinbutton"@.len());
    }
    assert("composite"@ != "spinbutton"@) by {
        assert("composite"@.len() != "spinbutton"@.len());
    }
    assert("input"@ != "spinbutton"@) by {
        assert("input"@.len() != "spinbutton"@.len());
    }
    assert("landmark"@ != "spinbutton"@) by {
        assert("landmark"@.len() != "spinbutton"@.len());
    }
    assert("range"@ != "spinbutton"@) by {
        assert("range"@.len() != "spinbutton"@.len());
    }
    assert("roletype"@ != "spinbutton"@) by {
        assert("roletype"@.len() != "spinbutton"@.len());
    }
    assert("section"@ != "spinbutton"@) by {
        assert("section"@.len() != "spinbutton"@.len());
    }
    assert("sectionhead"@ != "spinbutton"@) by {
        assert("sectionhead"@.len() != "spinbutton"@.len());
    }
    assert("select"@ != "spinbutton"@) by {
        assert("select"@.len() != "spinbutton"@.len());
    }
    assert("structure"@ != "spinbutton"@) by {
        assert("structure"@.len() != "spinbutton"@.len());
    }
    assert("widget"@ != "spinbutton"@) by {
        assert("widget"@.len() != "spinbutton"@.len());
    }
    assert("window"@ != "spinbutton"@) by {
        assert("window"@.len() != "spinbutton"@.len());
    }
}

proof fn role_name_unique_status(b: Role)
    requires
        b.name_spec() == "status"@,
    ensures
        b == Role::Status,
{
    reveal_strlit("alert");
    reveal_strlit("alertdialog");
    reveal_strlit("application");
    reveal_strlit("article");
    reveal_strlit("banner");
    reveal_strlit("button");
    reveal_strlit("cell");
    reveal_strlit("checkbox");
    reveal_strlit("columnheader");
    reveal_strlit("combobox");
    reveal_strlit("complementary");
    reveal_strlit("contentinfo");
    reveal_strlit("definition");
    reveal_strlit("dialog");
    reveal_strlit("directory");
    reveal_strlit("document");
    reveal_strlit("feed");
    reveal_strlit("figure");
    reveal_strlit("form");
    reveal_strlit("grid");
    reveal_strlit("gridcell");
    reveal_strlit("group");
    reveal_strlit("heading");
    reveal_strlit("img");
    reveal_strlit("link");
    reveal_strlit("list");
    reveal_strlit("listbox");
    reveal_strlit("listitem");
    reveal_strlit("log");
    reveal_strlit("main");
    reveal_strlit("marquee");
    reveal_strlit("math");
    reveal_strlit("menu");
    reveal_strlit("menubar");
    reveal_strlit("menuitem");
    reveal_strlit("menuitemcheckbox");
    reveal_strlit("menuitemradio");
    reveal_strlit("meter");
    reveal_strlit("navigation");
    reveal_strlit("none");
    reveal_strlit("note");
    reveal_strlit("option");
    reveal_strlit("presentation");
    reveal_strlit("progressbar");
    reveal_strlit("radio");
    reveal_strlit("radiogroup");
    reveal_strlit("region");
    reveal_strlit("row");
    reveal_strlit("rowgroup");
    reveal_strlit("rowheader");
    reveal_strlit("scrollbar");
    reveal_strlit("search");
    reveal_strlit("searchbox");
    reveal_strlit("separator");
    reveal_strlit("slider");
    reveal_strlit("spinbutton");
    reveal_strlit("status");
    reveal_strlit("switch");
    reveal_strlit("tab");
    reveal_strlit("table");
    reveal_strlit("tablist");
    reveal_strlit("tabpanel");
    reveal_strlit("term");
    reveal_strlit("textbox");
    reveal_strlit("timer");
    reveal_strlit("toolbar");
    reveal_strlit("tooltip");
    reveal_strlit("tree");
    reveal_strlit("treegrid");
    reveal_strlit("treeitem");
    reveal_strlit("command");
    reveal_strlit("composite");
    reveal_strlit("input");
    reveal_strlit("landmark");
    reveal_strlit("range");
    reveal_strlit("roletype");
    reveal_strlit("section");
    reveal_strlit("sectionhead");
    reveal_strlit("select");
    reveal_strlit("structure");
    reveal_strlit("widget");
    reveal_strlit("window");
    assert("alert"@ != "status"@) by {
        assert("alert"@.len() != "status"@.len());
    }
    assert("alertdialog"@ != "status"@) by {
        assert("alertdialog"@.len() != "status"@.len());
    }
    assert("application"@ != "status"@) by {
        assert("application"@.len() != "status"@.len());
    }
    assert("article"@ != "status"@) by {
        assert("article"@.len() != "status"@.len());
    }
    assert("banner"@ != "status"@) by {
        assert("banner"@[0] != "status"@[0]);
    }
    assert("button"@ != "status"@) by {
        assert("button"@[0] != "status"@[0]);
    }
    assert("cell"@ != "status"@) by {
        assert("cell"@.len() != "status"@.len());
    }
    assert("checkbox"@ != "status"@) by {
        assert("checkbox"@.len() != "status"@.len());
    }
    assert("columnheader"@ != "status"@) by {
        assert("columnheader"@.len() != "status"@.len());
    }
    assert("combobox"@ != "status"@) by {
        assert("combobox"@.len() != "status"@.len());
    }
    assert("complementary"@ != "status"@) by {
        assert("complementary"@.len() != "status"@.len());
    }
    assert("contentinfo"@ != "status"@) by {
        assert("contentinfo"@.len() != "status"@.len());
    }
    assert("definition"@ != "status"@) by {
        assert("definition"@.len() != "status"@.len());
    }
    assert("dialog"@ != "status"@) by {
        assert("dialog"@[0] != "status"@[0]);
    }
    assert("directory"@ != "status"@) by {
        assert("directory"@.len() != "status"@.len());
    }
    assert("document"@ != "status"@) by {
        assert("document"@.len() != "status"@.len());
    }
    assert("feed"@ != "status"@) by {
        assert("feed"@.len() != "status"@.len());
    }
    assert("figure"@ != "status"@) by {
        assert("figure"@[0] != "status"@[0]);
    }
    assert("form"@ != "status"@) by {
        assert("form"@.len() != "status"@.len());
    }
    assert("grid"@ != "status"@) by {
        assert("grid"@.len() != "status"@.len());
    }
    assert("gridcell"@ != "status"@) by {
        assert("gridcell"@.len() != "status"@.len());
    }
    assert("group"@ != "status"@) by {
        assert("group"@.len() != "status"@.len());
    }
    assert("heading"@ != "status"@) by {
        assert("heading"@.len() != "status"@.len());
    }
    assert("img"@ != "status"@) by {
        assert("img"@.len() != "status"@.len());
    }
    assert("link"@ != "status"@) by {
        assert("link"@.len() != "status"@.len());
    }
    assert("list"@ != "status"@) by {
        assert("list"@.len() != "status"@.len());
    }
    assert("listbox"@ != "status"@) by {
        assert("listbox"@.len() != "status"@.len());
    }
    assert("listitem"@ != "status"@) by {
        assert("listitem"@.len() != "status"@.len());
    }
    assert("log"@ != "status"@) by {
        assert("log"@.len() != "status"@.len());
    }
    assert("main"@ != "status"@) by {
        assert("main"@.len() != "status"@.len());
    }
    assert("marquee"@ != "status"@) by {
        assert("marquee"@.len() != "status"@.len());
    }
    assert("math"@ != "status"@) by {
        assert("math"@.len() != "status"@.len());
    }
    assert("menu"@ != "status"@) by {
        assert("menu"@.len() != "status"@.len());
    }
    assert("menubar"@ != "status"@) by {
        assert("menubar"@.len() != "status"@.len());
    }
    assert("menuitem"@ != "status"@) by {
        assert("menuitem"@.len() != "status"@.len());
    }
    assert("menuitemcheckbox"@ != "status"@) by {
        assert("menuitemcheckbox"@.len() != "status"@.len());
    }
    assert("menuitemradio"@ != "status"@) by {
        assert("menuitemradio"@.len() != "status"@.len());
    }
    assert("meter"@ != "status"@) by {
        assert("meter"@.len() != "status"@.len());
    }
    assert("navigation"@ != "status"@) by {
        assert("navigation"@.len() != "status"@.len());
    }
    assert("none"@ != "status"@) by {
        assert("none"@.len() != "status"@.len());
    }
    assert("note"@ != "status"@) by {
        assert("note"@.len() != "status"@.len());
    }
    assert("option"@ != "status"@) by {
        assert("option"@[0] != "status"@[0]);
    }
    assert("presentation"@ != "status"@) by {
        assert("presentation"@.len() != "status"@.len());
    }
    assert("progressbar"@ != "status"@) by {
        assert("progressbar"@.len() != "status"@.len());
    }
    assert("radio"@ != "status"@) by {
        assert("radio"@.len() != "status"@.len());
    }
    assert("radiogroup"@ != "status"@) by {
        assert("radiogroup"@.len() != "status"@.len());
    }
    assert("region"@ != "status"@) by {
        assert("region"@[0] != "status"@[0]);
    }
    assert("row"@ != "status"@) by {
        assert("row"@.len() != "status"@.len());
    }
    assert("rowgroup"@ != "status"@) by {
        assert("rowgroup"@.len() != "status"@.len());
    }
    assert("rowheader"@ != "status"@) by {
        assert("rowheader"@.len() != "status"@.len());
    }
    assert("scrollbar"@ != "status"@) by {
        assert("scrollbar"@.len() != "status"@.len());
    }
    assert("search"@ != "status"@) by {
        assert("search"@[1] != "status"@[1]);
    }
    assert("searchbox"@ != "status"@) by {
        assert("searchbox"@.len() != "status"@.len());
    }
    assert("separator"@ != "status"@) by {
        assert("separator"@.len() != "status"@.len());
    }
    assert("slider"@ != "status"@) by {
        assert("slider"@[1] != "status"@[1]);
    }
    assert("spinbutton"@ != "status"@) by {
        assert("spinbutton"@.len() != "status"@.len());
    }
    assert("switch"@ != "status"@) by {
        assert("switch"@[1] != "status"@[1]);
    }
    assert("tab"@ != "status"@) by {
        assert("tab"@.len() != "status"@.len());
    }
    assert("table"@ != "status"@) by {
        assert("table"@.len() != "status"@.len());
    }
    assert("tablist"@ != "status"@) by {
        assert("tablist"@.len() != "status"@.len());
    }
    assert("tabpanel"@ != "status"@) by {
        assert("tabpanel"@.len() != "status"@.len());
    }
    assert("term"@ != "status"@) by {
        assert("term"@.len() != "status"@.len());
    }
    assert("textbox"@ != "status"@) by {
        assert("textbox"@.len() != "status"@.len());
    }
    assert("timer"@ != "status"@) by {
        assert("timer"@.len() != "status"@.len());
    }
    assert("toolbar"@ != "status"@) by {
        assert("toolbar"@.len() != "status"@.len());
    }
    assert("tooltip"@ != "status"@) by {
        assert("tooltip"@.len() != "status"@.len());
    }
    assert("tree"@ != "status"@) by {
        assert("tree"@.len() != "status"@.len());
    }
    assert("treegrid"@ != "status"@) by {
        assert("treegrid"@.len() != "status"@.len());
    }
    assert("treeitem"@ != "status"@) by {
        assert("treeitem"@.len() != "status"@.len());
    }
    assert("command"@ != "status"@) by {
        assert("command"@.len() != "status"@.len());
    }
    assert("composite"@ != "status"@) by {
        assert("composite"@.len() != "status"@.len());
    }
    assert("input"@ != "status"@) by {
        assert("input"@.len() != "status"@.len());
    }
    assert("landmark"@ != "status"@) by {
        assert("landmark"@.len() != "status"@.len());
    }
    assert("range"@ != "status"@) by {
        assert("range"@.len() != "status"@.len());
    }
    assert("roletype"@ != "status"@) by {
        assert("roletype"@.len() != "status"@.len());
    }
    assert("section"@ != "status"@) by {
        assert("section"@.len() != "status"@.len());
    }
    assert("sectionhead"@ != "status"@) by {
        assert("sectionhead"@.len() != "status"@.len());
    }
    assert("select"@ != "status"@) by {
        assert("select"@[1] != "status"@[1]);
    }
    assert("structure"@ != "status"@) by {
        assert("structure"@.len() != "status"@.len());
    }
    assert("widget"@ != "status"@) by {
        assert("widget"@[0] != "status"@[0]);
    }
    assert("window"@ != "status"@) by {
        assert("window"@[0] != "status"@[0]);
    }
}

proof fn role_name_unique_switch(b: Role)
    requires
        b.name_spec() == "switch"@,
    ensures
        b == Role::Switch,
{
    reveal_strlit("alert");
    reveal_strlit("alertdialog");
    reveal_strlit("application");
    reveal_strlit("article");
    reveal_strlit("banner");
    reveal_strlit("button");
    reveal_strlit("cell");
    reveal_strlit("checkbox");
    reveal_strlit("columnheader");
    reveal_strlit("combobox");
    reveal_strlit("complementary");
    reveal_strlit("contentinfo");
    reveal_strlit("definition");
    reveal_strlit("dialog");
    reveal_strlit("directory");
    reveal_strlit("document");
    reveal_strlit("feed");
    reveal_strlit("figure");
    reveal_strlit("form");
    reveal_strlit("grid");
    reveal_strlit("gridcell");
    reveal_strlit("group");
    reveal_strlit("heading");
    reveal_strlit("img");
    reveal_strlit("link");
    reveal_strlit("list");
    reveal_strlit("listbox");
    reveal_strlit("listitem");
    reveal_strlit("log");
    reveal_strlit("main");
    reveal_strlit("marquee");
    reveal_strlit("math");
    reveal_strlit("menu");
    reveal_strlit("menubar");
    reveal_strlit("menuitem");
    reveal_strlit("menuitemcheckbox");
    reveal_strlit("menuitemradio");
    reveal_strlit("meter");
    reveal_strlit("navigation");
    reveal_strlit("none");
    reveal_strlit("note");
    reveal_strlit("option");
    reveal_strlit("presentation");
    reveal_strlit("progressbar");
    reveal_strlit("radio");
    reveal_strlit("radiogroup");
    reveal_strlit("region");
    reveal_strlit("row");
    reveal_strlit("rowgroup");
    reveal_strlit("rowheader");
    reveal_strlit("scrollbar");
    reveal_strlit("search");
    reveal_strlit("searchbox");
    reveal_strlit("separator");
    reveal_strlit("slider");
    reveal_strlit("spinbutton");
    reveal_strlit("status");
    reveal_strlit("switch");
    reveal_strlit("tab");
    reveal_strlit("table");
    reveal_strlit("tablist");
    reveal_strlit("tabpanel");
    reveal_strlit("term");
    reveal_strlit("textbox");
    reveal_strlit("timer");
    reveal_strlit("toolbar");
    reveal_strlit("tooltip");
    reveal_strlit("tree");
    reveal_strlit("treegrid");
    reveal_strlit("treeitem");
    reveal_strlit("command");
    reveal_strlit("composite");
    reveal_strlit("input");
    reveal_strlit("landmark");
    reveal_strlit("range");
    reveal_strlit("roletype");
    reveal_strlit("section");
    reveal_strlit("sectionhead");
    reveal_strlit("select");
    reveal_strlit("structure");
    reveal_strlit("widget");
    reveal_strlit("window");
    assert("alert"@ != "switch"@) by {
        assert("alert"@.len() != "switch"@.len());
    }
    assert("alertdialog"@ != "switch"@) by {
        assert("alertdialog"@.len() != "switch"@.len());
    }
    assert("application"@ != "switch"@) by {
        assert("application"@.len() != "switch"@.len());
    }
    assert("article"@ != "switch"@) by {
        assert("article"@.len() != "switch"@.len());
    }
    assert("banner"@ != "switch"@) by {
        assert("banner"@[0] != "switch"@[0]);
    }
    assert("button"@ != "switch"@) by {
        assert("button"@[0] != "switch"@[0]);
    }
    assert("cell"@ != "switch"@) by {
        assert("cell"@.len() != "switch"@.len());
    }
    assert("checkbox"@ != "switch"@) by {
        assert("checkbox"@.len() != "switch"@.len());
    }
    assert("columnheader"@ != "switch"@) by {
        assert("columnheader"@.len() != "switch"@.len());
    }
    assert("combobox"@ != "switch"@) by {
        assert("combobox"@.len() != "switch"@.len());
    }
    assert("complementary"@ != "switch"@) by {
        assert("complementary"@.len() != "switch"@.len());
    }
    assert("contentinfo"@ != "switch"@) by {
        assert("contentinfo"@.len() != "switch"@.len());
    }
    assert("definition"@ != "switch"@) by {
        assert("definition"@.len() != "switch"@.len());
    }
    assert("dialog"@ != "switch"@) by {
        assert("dialog"@[0] != "switch"@[0]);
    }
    assert("directory"@ != "switch"@) by {
        assert("directory"@.len() != "switch"@.len());
    }
    assert("document"@ != "switch"@) by {
        assert("document"@.len() != "switch"@.len());
    }
    assert("feed"@ != "switch"@) by {
        assert("feed"@.len() != "switch"@.len());
    }
    assert("figure"@ != "switch"@) by {
        assert("figure"@[0] != "switch"@[0]);
    }
    assert("form"@ != "switch"@) by {
        assert("form"@.len() != "switch"@.len());
    }
    assert("grid"@ != "switch"@) by {
        assert("grid"@.len() != "switch"@.len());
    }
    assert("gridcell"@ != "switch"@) by {
        assert("gridcell"@.len() != "switch"@.len());
    }
    assert("group"@ != "switch"@) by {
        assert("group"@.len() != "switch"@.len());
    }
    assert("heading"@ != "switch"@) by {
        assert("heading"@.len() != "switch"@.len());
    }
    assert("img"@ != "switch"@) by {
        assert("img"@.len() != "switch"@.len());
    }
    assert("link"@ != "switch"@) by {
        assert("link"@.len() != "switch"@.len());
    }
    assert("list"@ != "switch"@) by {
        assert("list"@.len() != "switch"@.len());
    }
    assert("listbox"@ != "switch"@) by {
        assert("listbox"@.len() != "switch"@.len());
    }
    assert("listitem"@ != "switch"@) by {
        assert("listitem"@.len() != "switch"@.len());
    }
    assert("log"@ != "switch"@) by {
        assert("log"@.len() != "switch"@.len());
    }
    assert("main"@ != "switch"@) by {
        assert("main"@.len() != "switch"@.len());
    }
    assert("marquee"@ != "switch"@) by {
        assert("marquee"@.len() != "switch"@.len());
    }
    assert("math"@ != "switch"@) by {
        assert("math"@.len() != "switch"@.len());
    }
    assert("menu"@ != "switch"@) by {
        assert("menu"@.len() != "switch"@.len());
    }
    assert("menubar"@ != "switch"@) by {
        assert("menubar"@.len() != "switch"@.len());
    }
    assert("menuitem"@ != "switch"@) by {
        assert("menuitem"@.len() != "switch"@.len());
    }
    assert("menuitemcheckbox"@ != "switch"@) by {
        assert("menuitemcheckbox"@.len() != "switch"@.len());
    }
    assert("menuitemradio"@ != "switch"@) by {
        assert("menuitemradio"@.len() != "switch"@.len());
    }
    assert("meter"@ != "switch"@) by {
        assert("meter"@.len() != "switch"@.len());
    }
    assert("navigation"@ != "switch"@) by {
        assert("navigation"@.len() != "switch"@.len());
    }
    assert("none"@ != "switch"@) by {
        assert("none"@.len() != "switch"@.len());
    }
    assert("note"@ != "switch"@) by {
        assert("note"@.len() != "switch"@.len());
    }
    assert("option"@ != "switch"@) by {
        assert("option"@[0] != "switch"@[0]);
    }
    assert("presentation"@ != "switch"@) by {
        assert("presentation"@.len() != "switch"@.len());
    }
    assert("progressbar"@ != "switch"@) by {
        assert("progressbar"@.len() != "switch"@.len());
    }
    assert("radio"@ != "switch"@) by {
        assert("radio"@.len() != "switch"@.len());
    }
    assert("radiogroup"@ != "switch"@) by {
        assert("radiogroup"@.len() != "switch"@.len());
    }
    assert("region"@ != "switch"@) by {
        assert("region"@[0] != "switch"@[0]);
    }
    assert("row"@ != "switch"@) by {
        assert("row"@.len() != "switch"@.len());
    }
    assert("rowgroup"@ != "switch"@) by {
        assert("rowgroup"@.len() != "switch"@.len());
    }
    assert("rowheader"@ != "switch"@) by {
        assert("rowheader"@.len() != "switch"@.len());
    }
    assert("scrollbar"@ != "switch"@) by {
        assert("scrollbar"@.len() != "switch"@.len());
    }
    assert("search"@ != "switch"@) by {
        assert("search"@[1] != "switch"@[1]);
    }
    assert("searchbox"@ != "switch"@) by {
        assert("searchbox"@.len() != "switch"@.len());
    }
    assert("separator"@ != "switch"@) by {
        assert("separator"@.len() != "switch"@.len());
    }
    assert("slider"@ != "switch"@) by {
        assert("slider"@[1] != "switch"@[1]);
    }
    assert("spinbutton"@ != "switch"@) by {
        assert("spinbutton"@.len() != "switch"@.len());
    }
    assert("status"@ != "switch"@) by {
        assert("status"@[1] != "switch"@[1]);
    }
    assert("tab"@ != "switch"@) by {
        assert("tab"@.len() != "switch"@.len());
    }
    assert("table"@ != "switch"@) by {
        assert("table"@.len() != "switch"@.len());
    }
    assert("tablist"@ != "switch"@) by {
        assert("tablist"@.len() != "switch"@.len());
    }
    assert("tabpanel"@ != "switch"@) by {
        assert("tabpanel"@.len() != "switch"@.len());
    }
    assert("term"@ != "switch"@) by {
        assert("term"@.len() != "switch"@.len());
    }
    assert("textbox"@ != "switch"@) by {
        assert("textbox"@.len() != "switch"@.len());
    }
    assert("timer"@ != "switch"@) by {
        assert("timer"@.len() != "switch"@.len());
    }
    assert("toolbar"@ != "switch"@) by {
        assert("toolbar"@.len() != "switch"@.len());
    }
    assert("tooltip"@ != "switch"@) by {
        assert("tooltip"@.len() != "switch"@.len());
    }
    assert("tree"@ != "switch"@) by {
        assert("tree"@.len() != "switch"@.len());
    }
    assert("treegrid"@ != "switch"@) by {
        assert("treegrid"@.len() != "switch"@.len());
    }
    assert("treeitem"@ != "switch"@) by {
        assert("treeitem"@.len() != "switch"@.len());
    }
    assert("command"@ != "switch"@) by {
        assert("command"@.len() != "switch"@.len());
    }
    assert("composite"@ != "switch"@) by {
        assert("composite"@.len() != "switch"@.len());
    }
    assert("input"@ != "switch"@) by {
        assert("input"@.len() != "switch"@.len());
    }
    assert("landmark"@ != "switch"@) by {
        assert("landmark"@.len() != "switch"@.len());
    }
    assert("range"@ != "switch"@) by {
        assert("range"@.len() != "switch"@.len());
    }
    assert("roletype"@ != "switch"@) by {
        assert("roletype"@.len() != "switch"@.len());
    }
    assert("section"@ != "switch"@) by {
        assert("section"@.len() != "switch"@.len());
    }
    assert("sectionhead"@ != "switch"@) by {
        assert("sectionhead"@.len() != "switch"@.len());
    }
    assert("select"@ != "switch"@) by {
        assert("select"@[1] != "switch"@[1]);
    }
    assert("structure"@ != "switch"@) by {
        assert("structure"@.len() != "switch"@.len());
    }
    assert("widget"@ != "switch"@) by {
        assert("widget"@[0] != "switch"@[0]);
    }
    assert("window"@ != "switch"@) by {
        assert("window"@[0] != "switch"@[0]);
    }
}

proof fn role_name_unique_tab(b: Role)
    requires
        b.name_spec() == "tab"@,
    ensures
        b == Role::Tab,
{
    reveal_strlit("alert");
    reveal_strlit("alertdialog");
    reveal_strlit("application");
    reveal_strlit("article");
    reveal_strlit("banner");
    reveal_strlit("button");
    reveal_strlit("cell");
    reveal_strlit("checkbox");
    reveal_strlit("columnheader");
    reveal_strlit("combobox");
    reveal_strlit("complementary");
    reveal_strlit("contentinfo");
    reveal_strlit("definition");
    reveal_strlit("dialog");
    reveal_strlit("directory");
    reveal_strlit("document");
    reveal_strlit("feed");
    reveal_strlit("figure");
    reveal_strlit("form");
    reveal_strlit("grid");
    reveal_strlit("gridcell");
    reveal_strlit("group");
    reveal_strlit("heading");
    reveal_strlit("img");
    reveal_strlit("link");
    reveal_strlit("list");
    reveal_strlit("listbox");
    reveal_strlit("listitem");
    reveal_strlit("log");
    reveal_strlit("main");
    reveal_strlit("marquee");
    reveal_strlit("math");
    reveal_strlit("menu");
    reveal_strlit("menubar");
    reveal_strlit("menuitem");
    reveal_strlit("menuitemcheckbox");
    reveal_strlit("menuitemradio");
    reveal_strlit("meter");
    reveal_strlit("navigation");
    reveal_strlit("none");
    reveal_strlit("note");
    reveal_strlit("option");
    reveal_strlit("presentation");
    reveal_strlit("progressbar");
    reveal_strlit("radio");
    reveal_strlit("radiogroup");
    reveal_strlit("region");
    reveal_strlit("row");
    reveal_strlit("rowgroup");
    reveal_strlit("rowheader");
    reveal_strlit("scrollbar");
    reveal_strlit("search");
    reveal_strlit("searchbox");
    reveal_strlit("separator");
    reveal_strlit("slider");
    reveal_strlit("spinbutton");
    reveal_strlit("status");
    reveal_strlit("switch");
    reveal_strlit("tab");
    reveal_strlit("table");
    reveal_strlit("tablist");
    reveal_strlit("tabpanel");
    reveal_strlit("term");
    reveal_strlit("textbox");
    reveal_strlit("timer");
    reveal_strlit("toolbar");
    reveal_strlit("tooltip");
    reveal_strlit("tree");
    reveal_strlit("treegrid");
    reveal_strlit("treeitem");
    reveal_strlit("command");
    reveal_strlit("composite");
    reveal_strlit("input");
    reveal_strlit("landmark");
    reveal_strlit("range");
    reveal_strlit("roletype");
    reveal_strlit("section");
    reveal_strlit("sectionhead");
    reveal_strlit("select");
    reveal_strlit("structure");
    reveal_strlit("widget");
    reveal_strlit("window");
    assert("alert"@ != "tab"@) by {
        assert("alert"@.len() != "tab"@.len());
    }
    assert("alertdialog"@ != "tab"@) by {
        assert("alertdialog"@.len() != "tab"@.len());
    }
    assert("application"@ != "tab"@) by {
        assert("application"@.len() != "tab"@.len());
    }
    assert("article"@ != "tab"@) by {
        assert("article"@.len() != "tab"@.len());
    }
    assert("banner"@ != "tab"@) by {
        assert("banner"@.len() != "tab"@.len());
    }
    assert("button"@ != "tab"@) by {
        assert("button"@.len() != "tab"@.len());
    }
    assert("cell"@ != "tab"@) by {
        assert("cell"@.len() != "tab"@.len());
    }
    assert("checkbox"@ != "tab"@) by {
        assert("checkbox"@.len() != "tab"@.len());
    }
    assert("columnheader"@ != "tab"@) by {
        assert("columnheader"@.len() != "tab"@.len());
    }
    assert("combobox"@ != "tab"@) by {
        assert("combobox"@.len() != "tab"@.len());
    }
    assert("complementary"@ != "tab"@) by {
        assert("complementary"@.len() != "tab"@.len());
    }
    assert("contentinfo"@ != "tab"@) by {
        assert("contentinfo"@.len() != "tab"@.len());
    }
    assert("definition"@ != "tab"@) by {
        assert("definition"@.len() != "tab"@.len());
    }
    assert("dialog"@ != "tab"@) by {
        assert("dialog"@.len() != "tab"@.len());
    }
    assert("directory"@ != "tab"@) by {
        assert("directory"@.len() != "tab"@.len());
    }
    assert("document"@ != "tab"@) by {
        assert("document"@.len() != "tab"@.len());
    }
    assert("feed"@ != "tab"@) by {
        assert("feed"@.len() != "tab"@.len());
    }
    assert("figure"@ != "tab"@) by {
        assert("figure"@.len() != "tab"@.len());
    }
    assert("form"@ != "tab"@) by {
        assert("form"@.len() != "tab"@.len());
    }
    assert("grid"@ != "tab"@) by {
        assert("grid"@.len() != "tab"@.len());
    }
    assert("gridcell"@ != "tab"@) by {
        assert("gridcell"@.len() != "tab"@.len());
    }
    assert("group"@ != "tab"@) by {
        assert("group"@.len() != "tab"@.len());
    }
    assert("heading"@ != "tab"@) by {
        assert("heading"@.len() != "tab"@.len());
    }
    assert("img"@ != "tab"@) by {
        assert("img"@[0] != "tab"@[0]);
    }
    assert("link"@ != "tab"@) by {
        assert("link"@.len() != "tab"@.len());
    }
    assert("list"@ != "tab"@) by {
        assert("list"@.len() != "tab"@.len());
    }
    assert("listbox"@ != "tab"@) by {
        assert("listbox"@.len() != "tab"@.len());
    }
    assert("listitem"@ != "tab"@) by {
        assert("listitem"@.len() != "tab"@.len());
    }
    assert("log"@ != "tab"@) by {
        assert("log"@[0] != "tab"@[0]);
    }
    assert("main"@ != "tab"@) by {
        assert("main"@.len() != "tab"@.len());
    }
    assert("marquee"@ != "tab"@) by {
        assert("marquee"@.len() != "tab"@.len());
    }
    assert("math"@ != "tab"@) by {
        assert("math"@.len() != "tab"@.len());
    }
    assert("menu"@ != "tab"@) by {
        assert("menu"@.len() != "tab"@.len());
    }
    assert("menubar"@ != "tab"@) by {
        assert("menubar"@.len() != "tab"@.len());
    }
    assert("menuitem"@ != "tab"@) by {
        assert("menuitem"@.len() != "tab"@.len());
    }
    assert("menuitemcheckbox"@ != "tab"@) by {
        assert("menuitemcheckbox"@.len() != "tab"@.len());
    }
    assert("menuitemradio"@ != "tab"@) by {
        assert("menuitemradio"@.len() != "tab"@.len());
    }
    assert("meter"@ != "tab"@) by {
        assert("meter"@.len() != "tab"@.len());
    }
    assert("navigation"@ != "tab"@) by {
        assert("navigation"@.len() != "tab"@.len());
    }
    assert("none"@ != "tab"@) by {
        assert("none"@.len() != "tab"@.len());
    }
    assert("note"@ != "tab"@) by {
        assert("note"@.len() != "tab"@.len());
    }
    assert("option"@ != "tab"@) by {
        assert("option"@.len() != "tab"@.len());
    }
    assert("presentation"@ != "tab"@) by {
        assert("presentation"@.len() != "tab"@.len());
    }
    assert("progressbar"@ != "tab"@) by {
        assert("progressbar"@.len() != "tab"@.len());
    }
    assert("radio"@ != "tab"@) by {
        assert("radio"@.len() != "tab"@.len());
    }
    assert("radiogroup"@ != "tab"@) by {
        assert("radiogroup"@.len() != "tab"@.len());
    }
    assert("region"@ != "tab"@) by {
        assert("region"@.len() != "tab"@.len());
    }
    assert("row"@ != "tab"@) by {
        assert("row"@[0] != "tab"@[0]);
    }
    assert("rowgroup"@ != "tab"@) by {
        assert("rowgroup"@.len() != "tab"@.len());
    }
    assert("rowheader"@ != "tab"@) by {
        assert("rowheader"@.len() != "tab"@.len());
    }
    assert("scrollbar"@ != "tab"@) by {
        assert("scrollbar"@.len() != "tab"@.len());
    }
    assert("search"@ != "tab"@) by {
        assert("search"@.len() != "tab"@.len());
    }
    assert("searchbox"@ != "tab"@) by {
        assert("searchbox"@.len() != "tab"@.len());
    }
    assert("separator"@ != "tab"@) by {
        assert("separator"@.len() != "tab"@.len());
    }
    assert("slider"@ != "tab"@) by {
        assert("slider"@.len() != "tab"@.len());
    }
    assert("spinbutton"@ != "tab"@) by {
        assert("spinbutton"@.len() != "tab"@.len());
    }
    assert("status"@ != "tab"@) by {
        assert("status"@.len() != "tab"@.len());
    }
    assert("switch"@ != "tab"@) by {
        assert("switch"@.len() != "tab"@.len());
    }
    assert("table"@ != "tab"@) by {
        assert("table"@.len() != "tab"@.len());
    }
    assert("tablist"@ != "tab"@) by {
        assert("tablist"@.len() != "tab"@.len());
    }
    assert("tabpanel"@ != "tab"@) by {
        assert("tabpanel"@.len() != "tab"@.len());
    }
    assert("term"@ != "tab"@) by {
        assert("term"@.len() != "tab"@.len());
    }
    assert("textbox"@ != "tab"@) by {
        assert("textbox"@.len() != "tab"@.len());
    }
    assert("timer"@ != "tab"@) by {
        assert("timer"@.len() != "tab"@.len());
    }
    assert("toolbar"@ != "tab"@) by {
        assert("toolbar"@.len() != "tab"@.len());
    }
    assert("tooltip"@ != "tab"@) by {
        assert("tooltip"@.len() != "tab"@.len());
    }
    assert("tree"@ != "tab"@) by {
        assert("tree"@.len() != "tab"@.len());
    }
    assert("treegrid"@ != "tab"@) by {
        assert("treegrid"@.len() != "tab"@.len());
    }
    assert("treeitem"@ != "tab"@) by {
        assert("treeitem"@.len() != "tab"@.len());
    }
    assert("command"@ != "tab"@) by {
        assert("command"@.len() != "tab"@.len());
    }
    assert("composite"@ != "tab"@) by {
        assert("composite"@.len() != "tab"@.len());
    }
    assert("input"@ != "tab"@) by {
        assert("input"@.len() != "tab"@.len());
    }
    assert("landmark"@ != "tab"@) by {
        assert("landmark"@.len() != "tab"@.len());
    }
    assert("range"@ != "tab"@) by {
        assert("range"@.len() != "tab"@.len());
    }
    assert("roletype"@ != "tab"@) by {
        assert("roletype"@.len() != "tab"@.len());
    }
    assert("section"@ != "tab"@) by {
        assert("section"@.len() != "tab"@.len());
    }
    assert("sectionhead"@ != "tab"@) by {
        assert("sectionhead"@.len() != "tab"@.len());
    }
    assert("select"@ != "tab"@) by {
        assert("select"@.len() != "tab"@.len());
    }
    assert("structure"@ != "tab"@) by {
        assert("structure"@.len() != "tab"@.len());
    }
    assert("widget"@ != "tab"@) by {
        assert("widget"@.len() != "tab"@.len());
    }
    assert("window"@ != "tab"@) by {
        assert("window"@.len() != "tab"@.len());
    }
}

proof fn role_name_unique_table(b: Role)
    requires
        b.name_spec() == "table"@,
    ensures
        b == Role::Table,
{
    reveal_strlit("alert");
    reveal_strlit("alertdialog");
    reveal_strlit("application");
    reveal_strlit("article");
    reveal_strlit("banner");
    reveal_strlit("button");
    reveal_strlit("cell");
    reveal_strlit("checkbox");
    reveal_strlit("columnheader");
    reveal_strlit("combobox");
    reveal_strlit("complementary");
    reveal_strlit("contentinfo");
    reveal_strlit("definition");
    reveal_strlit("dialog");
    reveal_strlit("directory");
    reveal_strlit("document");
    reveal_strlit("feed");
    reveal_strlit("figure");
    reveal_strlit("form");
    reveal_strlit("grid");
    reveal_strlit("gridcell");
    reveal_strlit("group");
    reveal_strlit("heading");
    reveal_strlit("img");
    reveal_strlit("link");
    reveal_strlit("list");
    reveal_strlit("listbox");
    reveal_strlit("listitem");
    reveal_strlit("log");
    reveal_strlit("main");
    reveal_strlit("marquee");
    reveal_strlit("math");
    reveal_strlit("menu");
    reveal_strlit("menubar");
    reveal_strlit("menuitem");
    reveal_strlit("menuitemcheckbox");
    reveal_strlit("menuitemradio");
    reveal_strlit("meter");
    reveal_strlit("navigation");
    reveal_strlit("none");
    reveal_strlit("note");
    reveal_strlit("option");
    reveal_strlit("presentation");
    reveal_strlit("progressbar");
    reveal_strlit("radio");
    reveal_strlit("radiogroup");
    reveal_strlit("region");
    reveal_strlit("row");
    reveal_strlit("rowgroup");
    reveal_strlit("rowheader");
    reveal_strlit("scrollbar");
    reveal_strlit("search");
    reveal_strlit("searchbox");
    reveal_strlit("separator");
    reveal_strlit("slider");
    reveal_strlit("spinbutton");
    reveal_strlit("status");
    reveal_strlit("switch");
    reveal_strlit("tab");
    reveal_strlit("table");
    reveal_strlit("tablist");
    reveal_strlit("tabpanel");
    reveal_strlit("term");
    reveal_strlit("textbox");
    reveal_strlit("timer");
    reveal_strlit("toolbar");
    reveal_strlit("tooltip");
    reveal_strlit("tree");
    reveal_strlit("treegrid");
    reveal_strlit("treeitem");
    reveal_strlit("command");
    reveal_strlit("composite");
    reveal_strlit("input");
    reveal_strlit("landmark");
    reveal_strlit("range");
    reveal_strlit("roletype");
    reveal_strlit("section");
    reveal_strlit("sectionhead");
    reveal_strlit("select");
    reveal_strlit("structure");
    reveal_strlit("widget");
    reveal_strlit("window");
    assert("alert"@ != "table"@) by {
        assert("alert"@[0] != "table"@[0]);
    }
    assert("alertdialog"@ != "table"@) by {
        assert("alertdialog"@.len() != "table"@.len());
    }
    assert("application"@ != "table"@) by {
        assert("application"@.len() != "table"@.len());
    }
    assert("article"@ != "table"@) by {
        assert("article"@.len() != "table"@.len());
    }
    assert("banner"@ != "table"@) by {
        assert("banner"@.len() != "table"@.len());
    }
    assert("button"@ != "table"@) by {
        assert("button"@.len() != "table"@.len());
    }
    assert("cell"@ != "table"@) by {
        assert("cell"@.len() != "table"@.len());
    }
    assert("checkbox"@ != "table"@) by {
        assert("checkbox"@.len() != "table"@.len());
    }
    assert("columnheader"@ != "table"@) by {
        assert("columnheader"@.len() != "table"@.len());
    }
    assert("combobox"@ != "table"@) by {
        assert("combobox"@.len() != "table"@.len());
    }
    assert("complementary"@ != "table"@) by {
        assert("complementary"@.len() != "table"@.len());
    }
    assert("contentinfo"@ != "table"@) by {
        assert("contentinfo"@.len() != "table"@.len());
    }
    assert("definition"@ != "table"@) by {
        assert("definition"@.len() != "table"@.len());
    }
    assert("dialog"@ != "table"@) by {
        assert("dialog"@.len() != "table"@.len());
    }
    assert("directory"@ != "table"@) by {
        assert("directory"@.len() != "table"@.len());
    }
    assert("document"@ != "table"@) by {
        assert("document"@.len() != "table"@.len());
    }
    assert("feed"@ != "table"@) by {
        assert("feed"@.len() != "table"@.len());
    }
    assert("figure"@ != "table"@) by {
        assert("figure"@.len() != "table"@.len());
    }
    assert("form"@ != "table"@) by {
        assert("form"@.len() != "table"@.len());
    }
    assert("grid"@ != "table"@) by {
        assert("grid"@.len() != "table"@.len());
    }
    assert("gridcell"@ != "table"@) by {
        assert("gridcell"@.len() != "table"@.len());
    }
    assert("group"@ != "table"@) by {
        assert("group"@[0] != "table"@[0]);
    }
    assert("heading"@ != "table"@) by {
        assert("heading"@.len() != "table"@.len());
    }
    assert("img"@ != "table"@) by {
        assert("img"@.len() != "table"@.len());
    }
    assert("link"@ != "table"@) by {
        assert("link"@.len() != "table"@.len());
    }
    assert("list"@ != "table"@) by {
        assert("list"@.len() != "table"@.len());
    }
    assert("listbox"@ != "table"@) by {
        assert("listbox"@.len() != "table"@.len());
    }
    assert("listitem"@ != "table"@) by {
        assert("listitem"@.len() != "table"@.len());
    }
    assert("log"@ != "table"@) by {
        assert("log"@.len() != "table"@.len());
    }
    assert("main"@ != "table"@) by {
        assert("main"@.len() != "table"@.len());
    }
    assert("marquee"@ != "table"@) by {
        assert("marquee"@.len() != "table"@.len());
    }
    assert("math"@ != "table"@) by {
        assert("math"@.len() != "table"@.len());
    }
    assert("menu"@ != "table"@) by {
        assert("menu"@.len() != "table"@.len());
    }
    assert("menubar"@ != "table"@) by {
        assert("menubar"@.len() != "table"@.len());
    }
    assert("menuitem"@ != "table"@) by {
        assert("menuitem"@.len() != "table"@.len());
    }
    assert("menuitemcheckbox"@ != "table"@) by {
        assert("menuitemcheckbox"@.len() != "table"@.len());
    }
    assert("menuitemradio"@ != "table"@) by {
        assert("menuitemradio"@.len() != "table"@.len());
    }
    assert("meter"@ != "table"@) by {
        assert("meter"@[0] != "table"@[0]);
    }
    assert("navigation"@ != "table"@) by {
        assert("navigation"@.len() != "table"@.len());
    }
    assert("none"@ != "table"@) by {
        assert("none"@.len() != "table"@.len());
    }
    assert("note"@ != "table"@) by {
        assert("note"@.len() != "table"@.len());
    }
    assert("option"@ != "table"@) by {
        assert("option"@.len() != "table"@.len());
    }
    assert("presentation"@ != "table"@) by {
        assert("presentation"@.len() != "table"@.len());
    }
    assert("progressbar"@ != "table"@) by {
        assert("progressbar"@.len() != "table"@.len());
    }
    assert("radio"@ != "table"@) by {
        assert("radio"@[0] != "table"@[0]);
    }
    assert("radiogroup"@ != "table"@) by {
        assert("radiogroup"@.len() != "table"@.len());
    }
    assert("region"@ != "table"@) by {
        assert("region"@.len() != "table"@.len());
    }
    assert("row"@ != "table"@) by {
        assert("row"@.len() != "table"@.len());
    }
    assert("rowgroup"@ != "table"@) by {
        assert("rowgroup"@.len() != "table"@.len());
    }
    assert("rowheader"@ != "table"@) by {
        assert("rowheader"@.len() != "table"@.len());
    }
    assert("scrollbar"@ != "table"@) by {
        assert("scrollbar"@.len() != "table"@.len());
    }
    assert("search"@ != "table"@) by {
        assert("search"@.len() != "table"@.len());
    }
    assert("searchbox"@ != "table"@) by {
        assert("searchbox"@.len() != "table"@.len());
    }
    assert("separator"@ != "table"@) by {
        assert("separator"@.len() != "table"@.len());
    }
    assert("slider"@ != "table"@) by {
        assert("slider"@.len() != "table"@.len());
    }
    assert("spinbutton"@ != "table"@) by {
        assert("spinbutton"@.len() != "table"@.len());
    }
    assert("status"@ != "table"@) by {
        assert("status"@.len() != "table"@.len());
    }
    assert("switch"@ != "table"@) by {
        assert("switch"@.len() != "table"@.len());
    }
    assert("tab"@ != "table"@) by {
        assert("tab"@.len() != "table"@.len());
    }
    assert("tablist"@ != "table"@) by {
        assert("tablist"@.len() != "table"@.len());
    }
    assert("tabpanel"@ != "table"@) by {
        assert("tabpanel"@.len() != "table"@.len());
    }
    assert("term"@ != "table"@) by {
        assert("term"@.len() != "table"@.len());
    }
    assert("textbox"@ != "table"@) by {
        assert("textbox"@.len() != "table"@.len());
    }
    assert("timer"@ != "table"@) by {
        assert("timer"@[1] != "table"@[1]);
    }
    assert("toolbar"@ != "table"@) by {
        assert("toolbar"@.len() != "table"@.len());
    }
    assert("tooltip"@ != "table"@) by {
        assert("tooltip"@.len() != "table"@.len());
    }
    assert("tree"@ != "table"@) by {
        assert("tree"@.len() != "table"@.len());
    }
    assert("treegrid"@ != "table"@) by {
        assert("treegrid"@.len() != "table"@.len());
    }
    assert("treeitem"@ != "table"@) by {
        assert("treeitem"@.len() != "table"@.len());
    }
    assert("command"@ != "table"@) by {
        assert("command"@.len() != "table"@.len());
    }
    assert("composite"@ != "table"@) by {
        assert("composite"@.len() != "table"@.len());
    }
    assert("input"@ != "table"@) by {
        assert("input"@[0] != "table"@[0]);
    }
    assert("landmark"@ != "table"@) by {
        assert("landmark"@.len() != "table"@.len());
    }
    assert("range"@ != "table"@) by {
        assert("range"@[0] != "table"@[0]);
    }
    assert("roletype"@ != "table"@) by {
        assert("roletype"@.len() != "table"@.len());
    }
    assert("section"@ != "table"@) by {
        assert("section"@.len() != "table"@.len());
    }
    assert("sectionhead"@ != "table"@) by {
        assert("sectionhead"@.len() != "table"@.len());
    }
    assert("select"@ != "table"@) by {
        assert("select"@.len() != "table"@.len());
    }
    assert("structure"@ != "table"@) by {
        assert("structure"@.len() != "table"@.len());
    }
    assert("widget"@ != "table"@) by {
        assert("widget"@.len() != "table"@.len());
    }
    assert("window"@ != "table"@) by {
        assert("window"@.len() != "table"@.len());
    }
}

proof fn role_name_unique_tablist(b: Role)
    requires
        b.name_spec() == "tablist"@,
    ensures
        b == Role::TabList,
{
    reveal_strlit("alert");
    reveal_strlit("alertdialog");
    reveal_strlit("application");
    reveal_strlit("article");
    reveal_strlit("banner");
    reveal_strlit("button");
    reveal_strlit("cell");
    reveal_strlit("checkbox");
    reveal_strlit("columnheader");
    reveal_strlit("combobox");
    reveal_strlit("complementary");
    reveal_strlit("contentinfo");
    reveal_strlit("definition");
    reveal_strlit("dialog");
    reveal_strlit("directory");
    reveal_strlit("document");
    reveal_strlit("feed");
    reveal_strlit("figure");
    reveal_strlit("form");
    reveal_strlit("grid");
    reveal_strlit("gridcell");
    reveal_strlit("group");
    reveal_strlit("heading");
    reveal_strlit("img");
    reveal_strlit("link");
    reveal_strlit("list");
    reveal_strlit("listbox");
    reveal_strlit("listitem");
    reveal_strlit("log");
    reveal_strlit("main");
    reveal_strlit("marquee");
    reveal_strlit("math");
    reveal_strlit("menu");
    reveal_strlit("menubar");
    reveal_strlit("menuitem");
    reveal_strlit("menuitemcheckbox");
    reveal_strlit("menuitemradio");
    reveal_strlit("meter");
    reveal_strlit("navigation");
    reveal_strlit("none");
    reveal_strlit("note");
    reveal_strlit("option");
    reveal_strlit("presentation");
    reveal_strlit("progressbar");
    reveal_strlit("radio");
    reveal_strlit("radiogroup");
    reveal_strlit("region");
    reveal_strlit("row");
    reveal_strlit("rowgroup");
    reveal_strlit("rowheader");
    reveal_strlit("scrollbar");
    reveal_strlit("search");
    reveal_strlit("searchbox");
    reveal_strlit("separator");
    reveal_strlit("slider");
    reveal_strlit("spinbutton");
    reveal_strlit("status");
    reveal_strlit("switch");
    reveal_strlit("tab");
    reveal_strlit("table");
    reveal_strlit("tablist");
    reveal_strlit("tabpanel");
    reveal_strlit("term");
    reveal_strlit("textbox");
    reveal_strlit("timer");
    reveal_strlit("toolbar");
    reveal_strlit("tooltip");
    reveal_strlit("tree");
    reveal_strlit("treegrid");
    reveal_strlit("treeitem");
    reveal_strlit("command");
    reveal_strlit("composite");
    reveal_strlit("input");
    reveal_strlit("landmark");
    reveal_strlit("range");
    reveal_strlit("roletype");
    reveal_strlit("section");
    reveal_strlit("sectionhead");
    reveal_strlit("select");
    reveal_strlit("structure");
    reveal_strlit("widget");
    reveal_strlit("window");
    assert("alert"@ != "tablist"@) by {
        assert("alert"@.len() != "tablist"@.len());
    }
    assert("alertdialog"@ != "tablist"@) by {
        assert("alertdialog"@.len() != "tablist"@.len());
    }
    assert("application"@ != "tablist"@) by {
        assert("application"@.len() != "tablist"@.len());
    }
    assert("article"@ != "tablist"@) by {
        assert("article"@[0] != "tablist"@[0]);
    }
    assert("banner"@ != "tablist"@) by {
        assert("banner"@.len() != "tablist"@.len());
    }
    assert("button"@ != "tablist"@) by {
        assert("button"@.len() != "tablist"@.len());
    }
    assert("cell"@ != "tablist"@) by {
        assert("cell"@.len() != "tablist"@.len());
    }
    assert("checkbox"@ != "tablist"@) by {
        assert("checkbox"@.len() != "tablist"@.len());
    }
    assert("columnheader"@ != "tablist"@) by {
        assert("columnheader"@.len() != "tablist"@.len());
    }
    assert("combobox"@ != "tablist"@) by {
        assert("combobox"@.len() != "tablist"@.len());
    }
    assert("complementary"@ != "tablist"@) by {
        assert("complementary"@.len() != "tablist"@.len());
    }
    assert("contentinfo"@ != "tablist"@) by {
        assert("contentinfo"@.len() != "tablist"@.len());
    }
    assert("definition"@ != "tablist"@) by {
        assert("definition"@.len() != "tablist"@.len());
    }
    assert("dialog"@ != "tablist"@) by {
        assert("dialog"@.len() != "tablist"@.len());
    }
    assert("directory"@ != "tablist"@) by {
        assert("directory"@.len() != "tablist"@.len());
    }
    assert("document"@ != "tablist"@) by {
        assert("document"@.len() != "tablist"@.len());
    }
    assert("feed"@ != "tablist"@) by {
        assert("feed"@.len() != "tablist"@.len());
    }
    assert("figure"@ != "tablist"@) by {
        assert("figure"@.len() != "tablist"@.len());
    }
    assert("form"@ != "tablist"@) by {
        assert("form"@.len() != "tablist"@.len());
    }
    assert("grid"@ != "tablist"@) by {
        assert("grid"@.len() != "tablist"@.len());
    }
    assert("gridcell"@ != "tablist"@) by {
        assert("gridcell"@.len() != "tablist"@.len());
    }
    assert("group"@ != "tablist"@) by {
        assert("group"@.len() != "tablist"@.len());
    }
    assert("heading"@ != "tablist"@) by {
        assert("heading"@[0] != "tablist"@[0]);
    }
    assert("img"@ != "tablist"@) by {
        assert("img"@.len() != "tablist"@.len());
    }
    assert("link"@ != "tablist"@) by {
        assert("link"@.len() != "tablist"@.len());
    }
    assert("list"@ != "tablist"@) by {
        assert("list"@.len() != "tablist"@.len());
    }
    assert("listbox"@ != "tablist"@) by {
        assert("listbox"@[0] != "tablist"@[0]);
    }
    assert("listitem"@ != "tablist"@) by {
        assert("listitem"@.len() != "tablist"@.len());
    }
    assert("log"@ != "tablist"@) by {
        assert("log"@.len() != "tablist"@.len());
    }
    assert("main"@ != "tablist"@) by {
        assert("main"@.len() != "tablist"@.len());
    }
    assert("marquee"@ != "tablist"@) by {
        assert("marquee"@[0] != "tablist"@[0]);
    }
    assert("math"@ != "tablist"@) by {
        assert("math"@.len() != "tablist"@.len());
    }
    assert("menu"@ != "tablist"@) by {
        assert("menu"@.len() != "tablist"@.len());
    }
    assert("menubar"@ != "tablist"@) by {
        assert("menubar"@[0] != "tablist"@[0]);
    }
    assert("menuitem"@ != "tablist"@) by {
        assert("menuitem"@.len() != "tablist"@.len());
    }
    assert("menuitemcheckbox"@ != "tablist"@) by {
        assert("menuitemcheckbox"@.len() != "tablist"@.len());
    }
    assert("menuitemradio"@ != "tablist"@) by {
        assert("menuitemradio"@.len() != "tablist"@.len());
    }
    assert("meter"@ != "tablist"@) by {
        assert("meter"@.len() != "tablist"@.len());
    }
    assert("navigation"@ != "tablist"@) by {
        assert("navigation"@.len() != "tablist"@.len());
    }
    assert("none"@ != "tablist"@) by {
        assert("none"@.len() != "tablist"@.len());
    }
    assert("note"@ != "tablist"@) by {
        assert("note"@.len() != "tablist"@.len());
    }
    assert("option"@ != "tablist"@) by {
        assert("option"@.len() != "tablist"@.len());
    }
    assert("presentation"@ != "tablist"@) by {
        assert("presentation"@.len() != "tablist"@.len());
    }
    assert("progressbar"@ != "tablist"@) by {
        assert("progressbar"@.len() != "tablist"@.len());
    }
    assert("radio"@ != "tablist"@) by {
        assert("radio"@.len() != "tablist"@.len());
    }
    assert("radiogroup"@ != "tablist"@) by {
        assert("radiogroup"@.len() != "tablist"@.len());
    }
    assert("region"@ != "tablist"@) by {
        assert("region"@.len() != "tablist"@.len());
    }
    assert("row"@ != "tablist"@) by {
        assert("row"@.len() != "tablist"@.len());
    }
    assert("rowgroup"@ != "tablist"@) by {
        assert("rowgroup"@.len() != "tablist"@.len());
    }
    assert("rowheader"@ != "tablist"@) by {
        assert("rowheader"@.len() != "tablist"@.len());
    }
    assert("scrollbar"@ != "tablist"@) by {
        assert("scrollbar"@.len() != "tablist"@.len());
    }
    assert("search"@ != "tablist"@) by {
        assert("search"@.len() != "tablist"@.len());
    }
    assert("searchbox"@ != "tablist"@) by {
        assert("searchbox"@.len() != "tablist"@.len());
    }
    assert("separator"@ != "tablist"@) by {
        assert("separator"@.len() != "tablist"@.len());
    }
    assert("slider"@ != "tablist"@) by {
        assert("slider"@.len() != "tablist"@.len());
    }
    assert("spinbutton"@ != "tablist"@) by {
        assert("spinbutton"@.len() != "tablist"@.len());
    }
    assert("status"@ != "tablist"@) by {
        assert("status"@.len() != "tablist"@.len());
    }
    assert("switch"@ != "tablist"@) by {
        assert("switch"@.len() != "tablist"@.len());
    }
    assert("tab"@ != "tablist"@) by {
        assert("tab"@.len() != "tablist"@.len());
    }
    assert("table"@ != "tablist"@) by {
        assert("table"@.len() != "tablist"@.len());
    }
    assert("tabpanel"@ != "tablist"@) by {
        assert("tabpanel"@.len() != "tablist"@.len());
    }
    assert("term"@ != "tablist"@) by {
        assert("term"@.len() != "tablist"@.len());
    }
    assert("textbox"@ != "tablist"@) by {
        assert("textbox"@[1] != "tablist"@[1]);
    }
    assert("timer"@ != "tablist"@) by {
        assert("timer"@.len() != "tablist"@.len());
    }
    assert("toolbar"@ != "tablist"@) by {
        assert("toolbar"@[1] != "tablist"@[1]);
    }
    assert("tooltip"@ != "tablist"@) by {
        assert("tooltip"@[1] != "tablist"@[1]);
    }
    assert("tree"@ != "tablist"@) by {
        assert("tree"@.len() != "tablist"@.len());
    }
    assert("treegrid"@ != "tablist"@) by {
        assert("treegrid"@.len() != "tablist"@.len());
    }
    assert("treeitem"@ != "tablist"@) by {
        assert("treeitem"@.len() != "tablist"@.len());
    }
    assert("command"@ != "tablist"@) by {
        assert("command"@[0] != "tablist"@[0]);
    }
    assert("composite"@ != "tablist"@) by {
        assert("composite"@.len() != "tablist"@.len());
    }
    assert("input"@ != "tablist"@) by {
        assert("input"@.len() != "tablist"@.len());
    }
    assert("landmark"@ != "tablist"@) by {
        assert("landmark"@.len() != "tablist"@.len());
    }
    assert("range"@ != "tablist"@) by {
        assert("range"@.len() != "tablist"@.len());
    }
    assert("roletype"@ != "tablist"@) by {
        assert("roletype"@.len() != "tablist"@.len());
    }
    assert("section"@ != "tablist"@) by {
        assert("section"@[0] != "tablist"@[0]);
    }
    assert("sectionhead"@ != "tablist"@) by {
        assert("sectionhead"@.len() != "tablist"@.len());
    }
    assert("select"@ != "tablist"@) by {
        assert("select"@.len() != "tablist"@.len());
    }
    assert("structure"@ != "tablist"@) by {
        assert("structure"@.len() != "tablist"@.len());
    }
    assert("widget"@ != "tablist"@) by {
        assert("widget"@.len() != "tablist"@.len());
    }
    assert("window"@ != "tablist"@) by {
        assert("window"@.len() != "tablist"@.len());
    }
}

proof fn role_name_unique_tabpanel(b: Role)
    requires
        b.name_spec() == "tabpanel"@,
    ensures
        b == Role::TabPanel,
{
    reveal_strlit("alert");
    reveal_strlit("alertdialog");
    reveal_strlit("application");
    reveal_strlit("article");
    reveal_strlit("banner");
    reveal_strlit("button");
    reveal_strlit("cell");
    reveal_strlit("checkbox");
    reveal_strlit("columnheader");
    reveal_strlit("combobox");
    reveal_strlit("complementary");
    reveal_strlit("contentinfo");
    reveal_strlit("definition");
    reveal_strlit("dialog");
    reveal_strlit("directory");
    reveal_strlit("document");
    reveal_strlit("feed");
    reveal_strlit("figure");
    reveal_strlit("form");
    reveal_strlit("grid");
    reveal_strlit("gridcell");
    reveal_strlit("group");
    reveal_strlit("heading");
    reveal_strlit("img");
    reveal_strlit("link");
    reveal_strlit("list");
    reveal_strlit("listbox");
    reveal_strlit("listitem");
    reveal_strlit("log");
    reveal_strlit("main");
    reveal_strlit("marquee");
    reveal_strlit("math");
    reveal_strlit("menu");
    reveal_strlit("menubar");
    reveal_strlit("menuitem");
    reveal_strlit("menuitemcheckbox");
    reveal_strlit("menuitemradio");
    reveal_strlit("meter");
    reveal_strlit("navigation");
    reveal_strlit("none");
    reveal_strlit("note");
    reveal_strlit("option");
    reveal_strlit("presentation");
    reveal_strlit("progressbar");
    reveal_strlit("radio");
    reveal_strlit("radiogroup");
    reveal_strlit("region");
    reveal_strlit("row");
    reveal_strlit("rowgroup");
    reveal_strlit("rowheader");
    reveal_strlit("scrollbar");
    reveal_strlit("search");
    reveal_strlit("searchbox");
    reveal_strlit("separator");
    reveal_strlit("slider");
    reveal_strlit("spinbutton");
    reveal_strlit("status");
    reveal_strlit("switch");
    reveal_strlit("tab");
    reveal_strlit("table");
    reveal_strlit("tablist");
    reveal_strlit("tabpanel");
    reveal_strlit("term");
    reveal_strlit("textbox");
    reveal_strlit("timer");
    reveal_strlit("toolbar");
    reveal_strlit("tooltip");
    reveal_strlit("tree");
    reveal_strlit("treegrid");
    reveal_strlit("treeitem");
    reveal_strlit("command");
    reveal_strlit("composite");
    reveal_strlit("input");
    reveal_strlit("landmark");
    reveal_strlit("range");
    reveal_strlit("roletype");
    reveal_strlit("section");
    reveal_strlit("sectionhead");
    reveal_strlit("select");
    reveal_strlit("structure");
    reveal_strlit("widget");
    reveal_strlit("window");
    assert("alert"@ != "tabpanel"@) by {
        assert("alert"@.len() != "tabpanel"@.len());
    }
    assert("alertdialog"@ != "tabpanel"@) by {
        assert("alertdialog"@.len() != "tabpanel"@.len());
    }
    assert("application"@ != "tabpanel"@) by {
        assert("application"@.len() != "tabpanel"@.len());
    }
    assert("article"@ != "tabpanel"@) by {
        assert("article"@.len() != "tabpanel"@.len());
    }
    assert("banner"@ != "tabpanel"@) by {
        assert("banner"@.len() != "tabpanel"@.len());
    }
    assert("button"@ != "tabpanel"@) by {
        assert("button"@.len() != "tabpanel"@.len());
    }
    assert("cell"@ != "tabpanel"@) by {
        assert("cell"@.len() != "tabpanel"@.len());
    }
    assert("checkbox"@ != "tabpanel"@) by {
        assert("checkbox"@[0] != "tabpanel"@[0]);
    }
    assert("columnheader"@ != "tabpanel"@) by {
        assert("columnheader"@.len() != "tabpanel"@.len());
    }
    assert("combobox"@ != "tabpanel"@) by {
        assert("combobox"@[0] != "tabpanel"@[0]);
    }
    assert("complementary"@ != "tabpanel"@) by {
        assert("complementary"@.len() != "tabpanel"@.len());
    }
    assert("contentinfo"@ != "tabpanel"@) by {
        assert("contentinfo"@.len() != "tabpanel"@.len());
    }
    assert("definition"@ != "tabpanel"@) by {
        assert("definition"@.len() != "tabpanel"@.len());
    }
    assert("dialog"@ != "tabpanel"@) by {
        assert("dialog"@.len() != "tabpanel"@.len());
    }
    assert("directory"@ != "tabpanel"@) by {
        assert("directory"@.len() != "tabpanel"@.len());
    }
    assert("document"@ != "tabpanel"@) by {
        assert("document"@[0] != "tabpanel"@[0]);
    }
    assert("feed"@ != "tabpanel"@) by {
        assert("feed"@.len() != "tabpanel"@.len());
    }
    assert("figure"@ != "tabpanel"@) by {
        assert("figure"@.len() != "tabpanel"@.len());
    }
    assert("form"@ != "tabpanel"@) by {
        assert("form"@.len() != "tabpanel"@.len());
    }
    assert("grid"@ != "tabpanel"@) by {
        assert("grid"@.len() != "tabpanel"@.len());
    }
    assert("gridcell"@ != "tabpanel"@) by {
        assert("gridcell"@[0] != "tabpanel"@[0]);
    }
    assert("group"@ != "tabpanel"@) by {
        assert("group"@.len() != "tabpanel"@.len());
    }
    assert("heading"@ != "tabpanel"@) by {
        assert("heading"@.len() != "tabpanel"@.len());
    }
    assert("img"@ != "tabpanel"@) by {
        assert("img"@.len() != "tabpanel"@.len());
    }
    assert("link"@ != "tabpanel"@) by {
        assert("link"@.len() != "tabpanel"@.len());
    }
    assert("list"@ != "tabpanel"@) by {
        assert("list"@.len() != "tabpanel"@.len());
    }
    assert("listbox"@ != "tabpanel"@) by {
        assert("listbox"@.len() != "tabpanel"@.len());
    }
    assert("listitem"@ != "tabpanel"@) by {
        assert("listitem"@[0] != "tabpanel"@[0]);
    }
    assert("log"@ != "tabpanel"@) by {
        assert("log"@.len() != "tabpanel"@.len());
    }
    assert("main"@ != "tabpanel"@) by {
        assert("main"@.len() != "tabpanel"@.len());
    }
    assert("marquee"@ != "tabpanel"@) by {
        assert("marquee"@.len() != "tabpanel"@.len());
    }
    assert("math"@ != "tabpanel"@) by {
        assert("math"@.len() != "tabpanel"@.len());
    }
    assert("menu"@ != "tabpanel"@) by {
        assert("menu"@.len() != "tabpanel"@.len());
    }
    assert("menubar"@ != "tabpanel"@) by {
        assert("menubar"@.len() != "tabpanel"@.len());
    }
    assert("menuitem"@ != "tabpanel"@) by {
        assert("menuitem"@[0] != "tabpanel"@[0]);
    }
    assert("menuitemcheckbox"@ != "tabpanel"@) by {
        assert("menuitemcheckbox"@.len() != "tabpanel"@.len());
    }
    assert("menuitemradio"@ != "tabpanel"@) by {
        assert("menuitemradio"@.len() != "tabpanel"@.len());
    }
    assert("meter"@ != "tabpanel"@) by {
        assert("meter"@.len() != "tabpanel"@.len());
    }
    assert("navigation"@ != "tabpanel"@) by {
        assert("navigation"@.len() != "tabpanel"@.len());
    }
    assert("none"@ != "tabpanel"@) by {
        assert("none"@.len() != "tabpanel"@.len());
    }
    assert("note"@ != "tabpanel"@) by {
        assert("note"@.len() != "tabpanel"@.len());
    }
    assert("option"@ != "tabpanel"@) by {
        assert("option"@.len() != "tabpanel"@.len());
    }
    assert("presentation"@ != "tabpanel"@) by {
        assert("presentation"@.len() != "tabpanel"@.len());
    }
    assert("progressbar"@ != "tabpanel"@) by {
        assert("progressbar"@.len() != "tabpanel"@.len());
    }
    assert("radio"@ != "tabpanel"@) by {
        assert("radio"@.len() != "tabpanel"@.len());
    }
    assert("radiogroup"@ != "tabpanel"@) by {
        assert("radiogroup"@.len() != "tabpanel"@.len());
    }
    assert("region"@ != "tabpanel"@) by {
        assert("region"@.len() != "tabpanel"@.len());
    }
    assert("row"@ != "tabpanel"@) by {
        assert("row"@.len() != "tabpanel"@.len());
    }
    assert("rowgroup"@ != "tabpanel"@) by {
        assert("rowgroup"@[0] != "tabpanel"@[0]);
    }
    assert("rowheader"@ != "tabpanel"@) by {
        assert("rowheader"@.len() != "tabpanel"@.len());
    }
    assert("scrollbar"@ != "tabpanel"@) by {
        assert("scrollbar"@.len() != "tabpanel"@.len());
    }
    assert("search"@ != "tabpanel"@) by {
        assert("search"@.len() != "tabpanel"@.len());
    }
    assert("searchbox"@ != "tabpanel"@) by {
        assert("searchbox"@.len() != "tabpanel"@.len());
    }
    assert("separator"@ != "tabpanel"@) by {
        assert("separator"@.len() != "tabpanel"@.len());
    }
    assert("slider"@ != "tabpanel"@) by {
        assert("slider"@.len() != "tabpanel"@.len());
    }
    assert("spinbutton"@ != "tabpanel"@) by {
        assert("spinbutton"@.len() != "tabpanel"@.len());
    }
    assert("status"@ != "tabpanel"@) by {
        assert("status"@.len() != "tabpanel"@.len());
    }
    assert("switch"@ != "tabpanel"@) by {
        assert("switch"@.len() != "tabpanel"@.len());
    }
    assert("tab"@ != "tabpanel"@) by {
        assert("tab"@.len() != "tabpanel"@.len());
    }
    assert("table"@ != "tabpanel"@) by {
        assert("table"@.len() != "tabpanel"@.len());
    }
    assert("tablist"@ != "tabpanel"@) by {
        assert("tablist"@.len() != "tabpanel"@.len());
    }
    assert("term"@ != "tabpanel"@) by {
        assert("term"@.len() != "tabpanel"@.len());
    }
    assert("textbox"@ != "tabpanel"@) by {
        assert("textbox"@.len() != "tabpanel"@.len());
    }
    assert("timer"@ != "tabpanel"@) by {
        assert("timer"@.len() != "tabpanel"@.len());
    }
    assert("toolbar"@ != "tabpanel"@) by {
        assert("toolbar"@.len() != "tabpanel"@.len());
    }
    assert("tooltip"@ != "tabpanel"@) by {
        assert("tooltip"@.len() != "tabpanel"@.len());
    }
    assert("tree"@ != "tabpanel"@) by {
        assert("tree"@.len() != "tabpanel"@.len());
    }
    assert("treegrid"@ != "tabpanel"@) by {
        assert("treegrid"@[1] != "tabpanel"@[1]);
    }
    assert("treeitem"@ != "tabpanel"@) by {
        assert("treeitem"@[1] != "tabpanel"@[1]);
    }
    assert("command"@ != "tabpanel"@) by {
        assert("command"@.len() != "tabpanel"@.len());
    }
    assert("composite"@ != "tabpanel"@) by {
        assert("composite"@.len() != "tabpanel"@.len());
    }
    assert("input"@ != "tabpanel"@) by {
        assert("input"@.len() != "tabpanel"@.len());
    }
    assert("landmark"@ != "tabpanel"@) by {
        assert("landmark"@[0] != "tabpanel"@[0]);
    }
    assert("range"@ != "tabpanel"@) by {
        assert("range"@.len() != "tabpanel"@.len());
    }
    assert("roletype"@ != "tabpanel"@) by {
        assert("roletype"@[0] != "tabpanel"@[0]);
    }
    assert("section"@ != "tabpanel"@) by {
        assert("section"@.len() != "tabpanel"@.len());
    }
    assert("sectionhead"@ != "tabpanel"@) by {
        assert("sectionhead"@.len() != "tabpanel"@.len());
    }
    assert("select"@ != "tabpanel"@) by {
        assert("select"@.len() != "tabpanel"@.len());
    }
    assert("structure"@ != "tabpanel"@) by {
        assert("structure"@.len() != "tabpanel"@.len());
    }
    assert("widget"@ != "tabpanel"@) by {
        assert("widget"@.len() != "tabpanel"@.len());
    }
    assert("window"@ != "tabpanel"@) by {
        assert("window"@.len() != "tabpanel"@.len());
    }
}

proof fn role_name_unique_term(b: Role)
    requires
        b.name_spec() == "term"@,
    ensures
        b == Role::Term,
{
    reveal_strlit("alert");
    reveal_strlit("alertdialog");
    reveal_strlit("application");
    reveal_strlit("article");
    reveal_strlit("banner");
    reveal_strlit("button");
    reveal_strlit("cell");
    reveal_strlit("checkbox");
    reveal_strlit("columnheader");
    reveal_strlit("combobox");
    reveal_strlit("complementary");
    reveal_strlit("contentinfo");
    reveal_strlit("definition");
    reveal_strlit("dialog");
    reveal_strlit("directory");
    reveal_strlit("document");
    reveal_strlit("feed");
    reveal_strlit("figure");
    reveal_strlit("form");
    reveal_strlit("grid");
    reveal_strlit("gridcell");
    reveal_strlit("group");
    reveal_strlit("heading");
    reveal_strlit("img");
    reveal_strlit("link");
    reveal_strlit("list");
    reveal_strlit("listbox");
    reveal_strlit("listitem");
    reveal_strlit("log");
    reveal_strlit("main");
    reveal_strlit("marquee");
    reveal_strlit("math");
    reveal_strlit("menu");
    reveal_strlit("menubar");
    reveal_strlit("menuitem");
    reveal_strlit("menuitemcheckbox");
    reveal_strlit("menuitemradio");
    reveal_strlit("meter");
    reveal_strlit("navigation");
    reveal_strlit("none");
    reveal_strlit("note");
    reveal_strlit("option");
    reveal_strlit("presentation");
    reveal_strlit("progressbar");
    reveal_strlit("radio");
    reveal_strlit("radiogroup");
    reveal_strlit("region");
    reveal_strlit("row");
    reveal_strlit("rowgroup");
    reveal_strlit("rowheader");
    reveal_strlit("scrollbar");
    reveal_strlit("search");
    reveal_strlit("searchbox");
    reveal_strlit("separator");
    reveal_strlit("slider");
    reveal_strlit("spinbutton");
    reveal_strlit("status");
    reveal_strlit("switch");
    reveal_strlit("tab");
    reveal_strlit("table");
    reveal_strlit("tablist");
    reveal_strlit("tabpanel");
    reveal_strlit("term");
    reveal_strlit("textbox");
    reveal_strlit("timer");
    reveal_strlit("toolbar");
    reveal_strlit("tooltip");
    reveal_strlit("tree");
    reveal_strlit("treegrid");
    reveal_strlit("treeitem");
    reveal_strlit("command");
    reveal_strlit("composite");
    reveal_strlit("input");
    reveal_strlit("landmark");
    reveal_strlit("range");
    reveal_strlit("roletype");
    reveal_strlit("section");
    reveal_strlit("sectionhead");
    reveal_strlit("select");
    reveal_strlit("structure");
    reveal_strlit("widget");
    reveal_strlit("window");
    assert("alert"@ != "term"@) by {
        assert("alert"@.len() != "term"@.len());
    }
    assert("alertdialog"@ != "term"@) by {
        assert("alertdialog"@.len() != "term"@.len());
    }
    assert("application"@ != "term"@) by {
        assert("application"@.len() != "term"@.len());
    }
    assert("article"@ != "term"@) by {
        assert("article"@.len() != "term"@.len());
    }
    assert("banner"@ != "term"@) by {
        assert("banner"@.len() != "term"@.len());
    }
    assert("button"@ != "term"@) by {
        assert("button"@.len() != "term"@.len());
    }
    assert("cell"@ != "term"@) by {
        assert("cell"@[0] != "term"@[0]);
    }
    assert("checkbox"@ != "term"@) by {
        assert("checkbox"@.len() != "term"@.len());
    }
    assert("columnheader"@ != "term"@) by {
        assert("columnheader"@.len() != "term"@.len());
    }
    assert("combobox"@ != "term"@) by {
        assert("combobox"@.len() != "term"@.len());
    }
    assert("complementary"@ != "term"@) by {
        assert("complementary"@.len() != "term"@.len());
    }
    assert("contentinfo"@ != "term"@) by {
        assert("contentinfo"@.len() != "term"@.len());
    }
    assert("definition"@ != "term"@) by {
        assert("definition"@.len() != "term"@.len());
    }
    assert("dialog"@ != "term"@) by {
        assert("dialog"@.len() != "term"@.len());
    }
    assert("directory"@ != "term"@) by {
        assert("directory"@.len() != "term"@.len());
    }
    assert("document"@ != "term"@) by {
        assert("document"@.len() != "term"@.len());
    }
    assert("feed"@ != "term"@) by {
        assert("feed"@[0] != "term"@[0]);
    }
    assert("figure"@ != "term"@) by {
        assert("figure"@.len() != "term"@.len());
    }
    assert("form"@ != "term"@) by {
        assert("form"@[0] != "term"@[0]);
    }
    assert("grid"@ != "term"@) by {
        assert("grid"@[0] != "term"@[0]);
    }
    assert("gridcell"@ != "term"@) by {
        assert("gridcell"@.len() != "term"@.len());
    }
    assert("group"@ != "term"@) by {
        assert("group"@.len() != "term"@.len());
    }
    assert("heading"@ != "term"@) by {
        assert("heading"@.len() != "term"@.len());
    }
    assert("img"@ != "term"@) by {
        assert("img"@.len() != "term"@.len());
    }
    assert("link"@ != "term"@) by {
        assert("link"@[0] != "term"@[0]);
    }
    assert("list"@ != "term"@) by {
        assert("list"@[0] != "term"@[0]);
    }
    assert("listbox"@ != "term"@) by {
        assert("listbox"@.len() != "term"@.len());
    }
    assert("listitem"@ != "term"@) by {
        assert("listitem"@.len() != "term"@.len());
    }
    assert("log"@ != "term"@) by {
        assert("log"@.len() != "term"@.len());
    }
    assert("main"@ != "term"@) by {
        assert("main"@[0] != "term"@[0]);
    }
    assert("marquee"@ != "term"@) by {
        assert("marquee"@.len() != "term"@.len());
    }
    assert("math"@ != "term"@) by {
        assert("math"@[0] != "term"@[0]);
    }
    assert("menu"@ != "term"@) by {
        assert("menu"@[0] != "term"@[0]);
    }
    assert("menubar"@ != "term"@) by {
        assert("menubar"@.len() != "term"@.len());
    }
    assert("menuitem"@ != "term"@) by {
        assert("menuitem"@.len() != "term"@.len());
    }
    assert("menuitemcheckbox"@ != "term"@) by {
        assert("menuitemcheckbox"@.len() != "term"@.len());
    }
    assert("menuitemradio"@ != "term"@) by {
        assert("menuitemradio"@.len() != "term"@.len());
    }
    assert("meter"@ != "term"@) by {
        assert("meter"@.len() != "term"@.len());
    }
    assert("navigation"@ != "term"@) by {
        assert("navigation"@.len() != "term"@.len());
    }
    assert("none"@ != "term"@) by {
        assert("none"@[0] != "term"@[0]);
    }
    assert("note"@ != "term"@) by {
        assert("note"@[0] != "term"@[0]);
    }
    assert("option"@ != "term"@) by {
        assert("option"@.len() != "term"@.len());
    }
    assert("presentation"@ != "term"@) by {
        assert("presentation"@.len() != "term"@.len());
    }
    assert("progressbar"@ != "term"@) by {
        assert("progressbar"@.len() != "term"@.len());
    }
    assert("radio"@ != "term"@) by {
        assert("radio"@.len() != "term"@.len());
    }
    assert("radiogroup"@ != "term"@) by {
        assert("radiogroup"@.len() != "term"@.len());
    }
    assert("region"@ != "term"@) by {
        assert("region"@.len() != "term"@.len());
    }
    assert("row"@ != "term"@) by {
        assert("row"@.len() != "term"@.len());
    }
    assert("rowgroup"@ != "term"@) by {
        assert("rowgroup"@.len() != "term"@.len());
    }
    assert("rowheader"@ != "term"@) by {
        assert("rowheader"@.len() != "term"@.len());
    }
    assert("scrollbar"@ != "term"@) by {
        assert("scrollbar"@.len() != "term"@.len());
    }
    assert("search"@ != "term"@) by {
        assert("search"@.len() != "term"@.len());
    }
    assert("searchbox"@ != "term"@) by {
        assert("searchbox"@.len() != "term"@.len());
    }
    assert("separator"@ != "term"@) by {
        assert("separator"@.len() != "term"@.len());
    }
    assert("slider"@ != "term"@) by {
        assert("slider"@.len() != "term"@.len());
    }
    assert("spinbutton"@ != "term"@) by {
        assert("spinbutton"@.len() != "term"@.len());
    }
    assert("status"@ != "term"@) by {
        assert("status"@.len() != "term"@.len());
    }
    assert("switch"@ != "term"@) by {
        assert("switch"@.len() != "term"@.len());
    }
    assert("tab"@ != "term"@) by {
        assert("tab"@.len() != "term"@.len());
    }
    assert("table"@ != "term"@) by {
        assert("table"@.len() != "term"@.len());
    }
    assert("tablist"@ != "term"@) by {
        assert("tablist"@.len() != "term"@.len());
    }
    assert("tabpanel"@ != "term"@) by {
        assert("tabpanel"@.len() != "term"@.len());
    }
    assert("textbox"@ != "term"@) by {
        assert("textbox"@.len() != "term"@.len());
    }
    assert("timer"@ != "term"@) by {
        assert("timer"@.len() != "term"@.len());
    }
    assert("toolbar"@ != "term"@) by {
        assert("toolbar"@.len() != "term"@.len());
    }
    assert("tooltip"@ != "term"@) by {
        assert("tooltip"@.len() != "term"@.len());
    }
    assert("tree"@ != "term"@) by {
        assert("tree"@[1] != "term"@[1]);
    }
    assert("treegrid"@ != "term"@) by {
        assert("treegrid"@.len() != "term"@.len());
    }
    assert("treeitem"@ != "term"@) by {
        assert("treeitem"@.len() != "term"@.len());
    }
    assert("command"@ != "term"@) by {
        assert("command"@.len() != "term"@.len());
    }
    assert("composite"@ != "term"@) by {
        assert("composite"@.len() != "term"@.len());
    }
    assert("input"@ != "term"@) by {
        assert("input"@.len() != "term"@.len());
    }
    assert("landmark"@ != "term"@) by {
        assert("landmark"@.len() != "term"@.len());
    }
    assert("range"@ != "term"@) by {
        assert("range"@.len() != "term"@.len());
    }
    assert("roletype"@ != "term"@) by {
        assert("roletype"@.len() != "term"@.len());
    }
    assert("section"@ != "term"@) by {
        assert("section"@.len() != "term"@.len());
    }
    assert("sectionhead"@ != "term"@) by {
        assert("sectionhead"@.len() != "term"@.len());
    }
    assert("select"@ != "term"@) by {
        assert("select"@.len() != "term"@.len());
    }
    assert("structure"@ != "term"@) by {
        assert("structure"@.len() != "term"@.len());
    }
    assert("widget"@ != "term"@) by {
        assert("widget"@.len() != "term"@.len());
    }
    assert("window"@ != "term"@) by {
        assert("window"@.len() != "term"@.len());
    }
}

proof fn role_name_unique_textbox(b: Role)
    requires
        b.name_spec() == "textbox"@,
    ensures
        b == Role::TextBox,
{
    reveal_strlit("alert");
    reveal_strlit("alertdialog");
    reveal_strlit("application");
    reveal_strlit("article");
    reveal_strlit("banner");
    reveal_strlit("button");
    reveal_strlit("cell");
    reveal_strlit("checkbox");
    reveal_strlit("columnheader");
    reveal_strlit("combobox");
    reveal_strlit("complementary");
    reveal_strlit("contentinfo");
    reveal_strlit("definition");
    reveal_strlit("dialog");
    reveal_strlit("directory");
    reveal_strlit("document");
    reveal_strlit("feed");
    reveal_strlit("figure");
    reveal_strlit("form");
    reveal_strlit("grid");
    reveal_strlit("gridcell");
    reveal_strlit("group");
    reveal_strlit("heading");
    reveal_strlit("img");
    reveal_strlit("link");
    reveal_strlit("list");
    reveal_strlit("listbox");
    reveal_strlit("listitem");
    reveal_strlit("log");
    reveal_strlit("main");
    reveal_strlit("marquee");
    reveal_strlit("math");
    reveal_strlit("menu");
    reveal_strlit("menubar");
    reveal_strlit("menuitem");
    reveal_strlit("menuitemcheckbox");
    reveal_strlit("menuitemradio");
    reveal_strlit("meter");
    reveal_strlit("navigation");
    reveal_strlit("none");
    reveal_strlit("note");
    reveal_strlit("option");
    reveal_strlit("presentation");
    reveal_strlit("progressbar");
    reveal_strlit("radio");
    reveal_strlit("radiogroup");
    reveal_strlit("region");
    reveal_strlit("row");
    reveal_strlit("rowgroup");
    reveal_strlit("rowheader");
    reveal_strlit("scrollbar");
    reveal_strlit("search");
    reveal_strlit("searchbox");
    reveal_strlit("separator");
    reveal_strlit("slider");
    reveal_strlit("spinbutton");
    reveal_strlit("status");
    reveal_strlit("switch");
    reveal_strlit("tab");
    reveal_strlit("table");
    reveal_strlit("tablist");
    reveal_strlit("tabpanel");
    reveal_strlit("term");
    reveal_strlit("textbox");
    reveal_strlit("timer");
    reveal_strlit("toolbar");
    reveal_strlit("tooltip");
    reveal_strlit("tree");
    reveal_strlit("treegrid");
    reveal_strlit("treeitem");
    reveal_strlit("command");
    reveal_strlit("composite");
    reveal_strlit("input");
    reveal_strlit("landmark");
    reveal_strlit("range");
    reveal_strlit("roletype");
    reveal_strlit("section");
    reveal_strlit("sectionhead");
    reveal_strlit("select");
    reveal_strlit("structure");
    reveal_strlit("widget");
    reveal_strlit("window");
    assert("alert"@ != "textbox"@) by {
        assert("alert"@.len() != "textbox"@.len());
    }
    assert("alertdialog"@ != "textbox"@) by {
        assert("alertdialog"@.len() != "textbox"@.len());
    }
    assert("application"@ != "textbox"@) by {
        assert("application"@.len() != "textbox"@.len());
    }
    assert("article"@ != "textbox"@) by {
        assert("article"@[0] != "textbox"@[0]);
    }
    assert("banner"@ != "textbox"@) by {
        assert("banner"@.len() != "textbox"@.len());
    }
    assert("button"@ != "textbox"@) by {
        assert("button"@.len() != "textbox"@.len());
    }
    assert("cell"@ != "textbox"@) by {
        assert("cell"@.len() != "textbox"@.len());
    }
    assert("checkbox"@ != "textbox"@) by {
        assert("checkbox"@.len() != "textbox"@.len());
    }
    assert("columnheader"@ != "textbox"@) by {
        assert("columnheader"@.len() != "textbox"@.len());
    }
    assert("combobox"@ != "textbox"@) by {
        assert("combobox"@.len() != "textbox"@.len());
    }
    assert("complementary"@ != "textbox"@) by {
        assert("complementary"@.len() != "textbox"@.len());
    }
    assert("contentinfo"@ != "textbox"@) by {
        assert("contentinfo"@.len() != "textbox"@.len());
    }
    assert("definition"@ != "textbox"@) by {
        assert("definition"@.len() != "textbox"@.len());
    }
    assert("dialog"@ != "textbox"@) by {
        assert("dialog"@.len() != "textbox"@.len());
    }
    assert("directory"@ != "textbox"@) by {
        assert("directory"@.len() != "textbox"@.len());
    }
    assert("document"@ != "textbox"@) by {
        assert("document"@.len() != "textbox"@.len());
    }
    assert("feed"@ != "textbox"@) by {
        assert("feed"@.len() != "textbox"@.len());
    }
    assert("figure"@ != "textbox"@) by {
        assert("figure"@.len() != "textbox"@.len());
    }
    assert("form"@ != "textbox"@) by {
        assert("form"@.len() != "textbox"@.len());
    }
    assert("grid"@ != "textbox"@) by {
        assert("grid"@.len() != "textbox"@.len());
    }
    assert("gridcell"@ != "textbox"@) by {
        assert("gridcell"@.len() != "textbox"@.len());
    }
    assert("group"@ != "textbox"@) by {
        assert("group"@.len() != "textbox"@.len());
    }
    assert("heading"@ != "textbox"@) by {
        assert("heading"@[0] != "textbox"@[0]);
    }
    assert("img"@ != "textbox"@) by {
        assert("img"@.len() != "textbox"@.len());
    }
    assert("link"@ != "textbox"@) by {
        assert("link"@.len() != "textbox"@.len());
    }
    assert("list"@ != "textbox"@) by {
        assert("list"@.len() != "textbox"@.len());
    }
    assert("listbox"@ != "textbox"@) by {
        assert("listbox"@[0] != "textbox"@[0]);
    }
    assert("listitem"@ != "textbox"@) by {
        assert("listitem"@.len() != "textbox"@.len());
    }
    assert("log"@ != "textbox"@) by {
        assert("log"@.len() != "textbox"@.len());
    }
    assert("main"@ != "textbox"@) by {
        assert("main"@.len() != "textbox"@.len());
    }
    assert("marquee"@ != "textbox"@) by {
        assert("marquee"@[0] != "textbox"@[0]);
    }
    assert("math"@ != "textbox"@) by {
        assert("math"@.len() != "textbox"@.len());
    }
    assert("menu"@ != "textbox"@) by {
        assert("menu"@.len() != "textbox"@.len());
    }
    assert("menubar"@ != "textbox"@) by {
        assert("menubar"@[0] != "textbox"@[0]);
    }
    assert("menuitem"@ != "textbox"@) by {
        assert("menuitem"@.len() != "textbox"@.len());
    }
    assert("menuitemcheckbox"@ != "textbox"@) by {
        assert("menuitemcheckbox"@.len() != "textbox"@.len());
    }
    assert("menuitemradio"@ != "textbox"@) by {
        assert("menuitemradio"@.len() != "textbox"@.len());
    }
    assert("meter"@ != "textbox"@) by {
        assert("meter"@.len() != "textbox"@.len());
    }
    assert("navigation"@ != "textbox"@) by {
        assert("navigation"@.len() != "textbox"@.len());
    }
    assert("none"@ != "textbox"@) by {
        assert("none"@.len() != "textbox"@.len());
    }
    assert("note"@ != "textbox"@) by {
        assert("note"@.len() != "textbox"@.len());
    }
    assert("option"@ != "textbox"@) by {
        assert("option"@.len() != "textbox"@.len());
    }
    assert("presentation"@ != "textbox"@) by {
        assert("presentation"@.len() != "textbox"@.len());
    }
    assert("progressbar"@ != "textbox"@) by {
        assert("progressbar"@.len() != "textbox"@.len());
    }
    assert("radio"@ != "textbox"@) by {
        assert("radio"@.len() != "textbox"@.len());
    }
    assert("radiogroup"@ != "textbox"@) by {
        assert("radiogroup"@.len() != "textbox"@.len());
    }
    assert("region"@ != "textbox"@) by {
        assert("region"@.len() != "textbox"@.len());
    }
    assert("row"@ != "textbox"@) by {
        assert("row"@.len() != "textbox"@.len());
    }
    assert("rowgroup"@ != "textbox"@) by {
        assert("rowgroup"@.len() != "textbox"@.len());
    }
    assert("rowheader"@ != "textbox"@) by {
        assert("rowheader"@.len() != "textbox"@.len());
    }
    assert("scrollbar"@ != "textbox"@) by {
        assert("scrollbar"@.len() != "textbox"@.len());
    }
    assert("search"@ != "textbox"@) by {
        assert("search"@.len() != "textbox"@.len());
    }
    assert("searchbox"@ != "textbox"@) by {
        assert("searchbox"@.len() != "textbox"@.len());
    }
    assert("separator"@ != "textbox"@) by {
        assert("separator"@.len() != "textbox"@.len());
    }
    assert("slider"@ != "textbox"@) by {
        assert("slider"@.len() != "textbox"@.len());
    }
    assert("spinbutton"@ != "textbox"@) by {
        assert("spinbutton"@.len() != "textbox"@.len());
    }
    assert("status"@ != "textbox"@) by {
        assert("status"@.len() != "textbox"@.len());
    }
    assert("switch"@ != "textbox"@) by {
        assert("switch"@.len() != "textbox"@.len());
    }
    assert("tab"@ != "textbox"@) by {
        assert("tab"@.len() != "textbox"@.len());
    }
    assert("table"@ != "textbox"@) by {
        assert("table"@.len() != "textbox"@.len());
    }
    assert("tablist"@ != "textbox"@) by {
        assert("tablist"@[1] != "textbox"@[1]);
    }
    assert("tabpanel"@ != "textbox"@) by {
        assert("tabpanel"@.len() != "textbox"@.len());
    }
    assert("term"@ != "textbox"@) by {
        assert("term"@.len() != "textbox"@.len());
    }
    assert("timer"@ != "textbox"@) by {
        assert("timer"@.len() != "textbox"@.len());
    }
    assert("toolbar"@ != "textbox"@) by {
        assert("toolbar"@[1] != "textbox"@[1]);
    }
    assert("tooltip"@ != "textbox"@) by {
        assert("tooltip"@[1] != "textbox"@[1]);
    }
    assert("tree"@ != "textbox"@) by {
        assert("tree"@.len() != "textbox"@.len());
    }
    assert("treegrid"@ != "textbox"@) by {
        assert("treegrid"@.len() != "textbox"@.len());
    }
    assert("treeitem"@ != "textbox"@) by {
        assert("treeitem"@.len() != "textbox"@.len());
    }
    assert("command"@ != "textbox"@) by {
        assert("command"@[0] != "textbox"@[0]);
    }
    assert("composite"@ != "textbox"@) by {
        assert("composite"@.len() != "textbox"@.len());
    }
    assert("input"@ != "textbox"@) by {
        assert("input"@.len() != "textbox"@.len());
    }
    assert("landmark"@ != "textbox"@) by {
        assert("landmark"@.len() != "textbox"@.len());
    }
    assert("range"@ != "textbox"@) by {
        assert("range"@.len() != "textbox"@.len());
    }
    assert("roletype"@ != "textbox"@) by {
        assert("roletype"@.len() != "textbox"@.len());
    }
    assert("section"@ != "textbox"@) by {
        assert("section"@[0] != "textbox"@[0]);
    }
    assert("sectionhead"@ != "textbox"@) by {
        assert("sectionhead"@.len() != "textbox"@.len());
    }
    assert("select"@ != "textbox"@) by {
        assert("select"@.len() != "textbox"@.len());
    }
    assert("structure"@ != "textbox"@) by {
        assert("structure"@.len() != "textbox"@.len());
    }
    assert("widget"@ != "textbox"@) by {
        assert("widget"@.len() != "textbox"@.len());
    }
    assert("window"@ != "textbox"@) by {
        assert("window"@.len() != "textbox"@.len());
    }
}

proof fn role_name_unique_timer(b: Role)
    requires
        b.name_spec() == "timer"@,
    ensures
        b == Role::Timer,
{
    reveal_strlit("alert");
    reveal_strlit("alertdialog");
    reveal_strlit("application");
    reveal_strlit("article");
    reveal_strlit("banner");
    reveal_strlit("button");
    reveal_strlit("cell");
    reveal_strlit("checkbox");
    reveal_strlit("columnheader");
    reveal_strlit("combobox");
    reveal_strlit("complementary");
    reveal_strlit("contentinfo");
    reveal_strlit("definition");
    reveal_strlit("dialog");
    reveal_strlit("directory");
    reveal_strlit("document");
    reveal_strlit("feed");
    reveal_strlit("figure");
    reveal_strlit("form");
    reveal_strlit("grid");
    reveal_strlit("gridcell");
    reveal_strlit("group");
    reveal_strlit("heading");
    reveal_strlit("img");
    reveal_strlit("link");
    reveal_strlit("list");
    reveal_strlit("listbox");
    reveal_strlit("listitem");
    reveal_strlit("log");
    reveal_strlit("main");
    reveal_strlit("marquee");
    reveal_strlit("math");
    reveal_strlit("menu");
    reveal_strlit("menubar");
    reveal_strlit("menuitem");
    reveal_strlit("menuitemcheckbox");
    reveal_strlit("menuitemradio");
    reveal_strlit("meter");
    reveal_strlit("navigation");
    reveal_strlit("none");
    reveal_strlit("note");
    reveal_strlit("option");
    reveal_strlit("presentation");
    reveal_strlit("progressbar");
    reveal_strlit("radio");
    reveal_strlit("radiogroup");
    reveal_strlit("region");
    reveal_strlit("row");
    reveal_strlit("rowgroup");
    reveal_strlit("rowheader");
    reveal_strlit("scrollbar");
    reveal_strlit("search");
    reveal_strlit("searchbox");
    reveal_strlit("separator");
    reveal_strlit("slider");
    reveal_strlit("spinbutton");
    reveal_strlit("status");
    reveal_strlit("switch");
    reveal_strlit("tab");
    reveal_strlit("table");
    reveal_strlit("tablist");
    reveal_strlit("tabpanel");
    reveal_strlit("term");
    reveal_strlit("textbox");
    reveal_strlit("timer");
    reveal_strlit("toolbar");
    reveal_strlit("tooltip");
    reveal_strlit("tree");
    reveal_strlit("treegrid");
    reveal_strlit("treeitem");
    reveal_strlit("command");
    reveal_strlit("composite");
    reveal_strlit("input");
    reveal_strlit("landmark");
    reveal_strlit("range");
    reveal_strlit("roletype");
    reveal_strlit("section");
    reveal_strlit("sectionhead");
    reveal_strlit("select");
    reveal_strlit("structure");
    reveal_strlit("widget");
    reveal_strlit("window");
    assert("alert"@ != "timer"@) by {
        assert("alert"@[0] != "timer"@[0]);
    }
    assert("alertdialog"@ != "timer"@) by {
        assert("alertdialog"@.len() != "timer"@.len());
    }
    assert("application"@ != "timer"@) by {
        assert("application"@.len() != "timer"@.len());
    }
    assert("article"@ != "timer"@) by {
        assert("article"@.len() != "timer"@.len());
    }
    assert("banner"@ != "timer"@) by {
        assert("banner"@.len() != "timer"@.len());
    }
    assert("button"@ != "timer"@) by {
        assert("button"@.len() != "timer"@.len());
    }
    assert("cell"@ != "timer"@) by {
        assert("cell"@.len() != "timer"@.len());
    }
    assert("checkbox"@ != "timer"@) by {
        assert("checkbox"@.len() != "timer"@.len());
    }
    assert("columnheader"@ != "timer"@) by {
        assert("columnheader"@.len() != "timer"@.len());
    }
    assert("combobox"@ != "timer"@) by {
        assert("combobox"@.len() != "timer"@.len());
    }
    assert("complementary"@ != "timer"@) by {
        assert("complementary"@.len() != "timer"@.len());
    }
    assert("contentinfo"@ != "timer"@) by {
        assert("contentinfo"@.len() != "timer"@.len());
    }
    assert("definition"@ != "timer"@) by {
        assert("definition"@.len() != "timer"@.len());
    }
    assert("dialog"@ != "timer"@) by {
        assert("dialog"@.len() != "timer"@.len());
    }
    assert("directory"@ != "timer"@) by {
        assert("directory"@.len() != "timer"@.len());
    }
    assert("document"@ != "timer"@) by {
        assert("document"@.len() != "timer"@.len());
    }
    assert("feed"@ != "timer"@) by {
        assert("feed"@.len() != "timer"@.len());
    }
    assert("figure"@ != "timer"@) by {
        assert("figure"@.len() != "timer"@.len());
    }
    assert("form"@ != "timer"@) by {
        assert("form"@.len() != "timer"@.len());
    }
    assert("grid"@ != "timer"@) by {
        assert("grid"@.len() != "timer"@.len());
    }
    assert("gridcell"@ != "timer"@) by {
        assert("gridcell"@.len() != "timer"@.len());
    }
    assert("group"@ != "timer"@) by {
        assert("group"@[0] != "timer"@[0]);
    }
    assert("heading"@ != "timer"@) by {
        assert("heading"@.len() != "timer"@.len());
    }
    assert("img"@ != "timer"@) by {
        assert("img"@.len() != "timer"@.len());
    }
    assert("link"@ != "timer"@) by {
        assert("link"@.len() != "timer"@.len());
    }
    assert("list"@ != "timer"@) by {
        assert("list"@.len() != "timer"@.len());
    }
    assert("listbox"@ != "timer"@) by {
        assert("listbox"@.len() != "timer"@.len());
    }
    assert("listitem"@ != "timer"@) by {
        assert("listitem"@.len() != "timer"@.len());
    }
    assert("log"@ != "timer"@) by {
        assert("log"@.len() != "timer"@.len());
    }
    assert("main"@ != "timer"@) by {
        assert("main"@.len() != "timer"@.len());
    }
    assert("marquee"@ != "timer"@) by {
        assert("marquee"@.len() != "timer"@.len());
    }
    assert("math"@ != "timer"@) by {
        assert("math"@.len() != "timer"@.len());
    }
    assert("menu"@ != "timer"@) by {
        assert("menu"@.len() != "timer"@.len());
    }
    assert("menubar"@ != "timer"@) by {
        assert("menubar"@.len() != "timer"@.len());
    }
    assert("menuitem"@ != "timer"@) by {
        assert("menuitem"@.len() != "timer"@.len());
    }
    assert("menuitemcheckbox"@ != "timer"@) by {
        assert("menuitemcheckbox"@.len() != "timer"@.len());
    }
    assert("menuitemradio"@ != "timer"@) by {
        assert("menuitemradio"@.len() != "timer"@.len());
    }
    assert("meter"@ != "timer"@) by {
        assert("meter"@[0] != "timer"@[0]);
    }
    assert("navigation"@ != "timer"@) by {
        assert("navigation"@.len() != "timer"@.len());
    }
    assert("none"@ != "timer"@) by {
        assert("none"@.len() != "timer"@.len());
    }
    assert("note"@ != "timer"@) by {
        assert("note"@.len() != "timer"@.len());
    }
    assert("option"@ != "timer"@) by {
        assert("option"@.len() != "timer"@.len());
    }
    assert("presentation"@ != "timer"@) by {
        assert("presentation"@.len() != "timer"@.len());
    }
    assert("progressbar"@ != "timer"@) by {
        assert("progressbar"@.len() != "timer"@.len());
    }
    assert("radio"@ != "timer"@) by {
        assert("radio"@[0] != "timer"@[0]);
    }
    assert("radiogroup"@ != "timer"@) by {
        assert("radiogroup"@.len() != "timer"@.len());
    }
    assert("region"@ != "timer"@) by {
        assert("region"@.len() != "timer"@.len());
    }
    assert("row"@ != "timer"@) by {
        assert("row"@.len() != "timer"@.len());
    }
    assert("rowgroup"@ != "timer"@) by {
        assert("rowgroup"@.len() != "timer"@.len());
    }
    assert("rowheader"@ != "timer"@) by {
        assert("rowheader"@.len() != "timer"@.len());
    }
    assert("scrollbar"@ != "timer"@) by {
        assert("scrollbar"@.len() != "timer"@.len());
    }
    assert("search"@ != "timer"@) by {
        assert("search"@.len() != "timer"@.len());
    }
    assert("searchbox"@ != "timer"@) by {
        assert("searchbox"@.len() != "timer"@.len());
    }
    assert("separator"@ != "timer"@) by {
        assert("separator"@.len() != "timer"@.len());
    }
    assert("slider"@ != "timer"@) by {
        assert("slider"@.len() != "timer"@.len());
    }
    assert("spinbutton"@ != "timer"@) by {
        assert("spinbutton"@.len() != "timer"@.len());
    }
    assert("status"@ != "timer"@) by {
        assert("status"@.len() != "timer"@.len());
    }
    assert("switch"@ != "timer"@) by {
        assert("switch"@.len() != "timer"@.len());
    }
    assert("tab"@ != "timer"@) by {
        assert("tab"@.len() != "timer"@.len());
    }
    assert("table"@ != "timer"@) by {
        assert("table"@[1] != "timer"@[1]);
    }
    assert("tablist"@ != "timer"@) by {
        assert("tablist"@.len() != "timer"@.len());
    }
    assert("tabpanel"@ != "timer"@) by {
        assert("tabpanel"@.len() != "timer"@.len());
    }
    assert("term"@ != "timer"@) by {
        assert("term"@.len() != "timer"@.len());
    }
    assert("textbox"@ != "timer"@) by {
        assert("textbox"@.len() != "timer"@.len());
    }
    assert("toolbar"@ != "timer"@) by {
        assert("toolbar"@.len() != "timer"@.len());
    }
    assert("tooltip"@ != "timer"@) by {
        assert("tooltip"@.len() != "timer"@.len());
    }
    assert("tree"@ != "timer"@) by {
        assert("tree"@.len() != "timer"@.len());
    }
    assert("treegrid"@ != "timer"@) by {
        assert("treegrid"@.len() != "timer"@.len());
    }
    assert("treeitem"@ != "timer"@) by {
        assert("treeitem"@.len() != "timer"@.len());
    }
    assert("command"@ != "timer"@) by {
        assert("command"@.len() != "timer"@.len());
    }
    assert("composite"@ != "timer"@) by {
        assert("composite"@.len() != "timer"@.len());
    }
    assert("input"@ != "timer"@) by {
        assert("input"@[0] != "timer"@[0]);
    }
    assert("landmark"@ != "timer"@) by {
        assert("landmark"@.len() != "timer"@.len());
    }
    assert("range"@ != "timer"@) by {
        assert("range"@[0] != "timer"@[0]);
    }
    assert("roletype"@ != "timer"@) by {
        assert("roletype"@.len() != "timer"@.len());
    }
    assert("section"@ != "timer"@) by {
        assert("section"@.len() != "timer"@.len());
    }
    assert("sectionhead"@ != "timer"@) by {
        assert("sectionhead"@.len() != "timer"@.len());
    }
    assert("select"@ != "timer"@) by {
        assert("select"@.len() != "timer"@.len());
    }
    assert("structure"@ != "timer"@) by {
        assert("structure"@.len() != "timer"@.len());
    }
    assert("widget"@ != "timer"@) by {
        assert("widget"@.len() != "timer"@.len());
    }
    assert("window"@ != "timer"@) by {
        assert("window"@.len() != "timer"@.len());
    }
}

proof fn role_name_unique_toolbar(b: Role)
    requires
        b.name_spec() == "toolbar"@,
    ensures
        b == Role::Toolbar,
{
    reveal_strlit("alert");
    reveal_strlit("alertdialog");
    reveal_strlit("application");
    reveal_strlit("article");
    reveal_strlit("banner");
    reveal_strlit("button");
    reveal_strlit("cell");
    reveal_strlit("checkbox");
    reveal_strlit("columnheader");
    reveal_strlit("combobox");
    reveal_strlit("complementary");
    reveal_strlit("contentinfo");
    reveal_strlit("definition");
    reveal_strlit("dialog");
    reveal_strlit("directory");
    reveal_strlit("document");
    reveal_strlit("feed");
    reveal_strlit("figure");
    reveal_strlit("form");
    reveal_strlit("grid");
    reveal_strlit("gridcell");
    reveal_strlit("group");
    reveal_strlit("heading");
    reveal_strlit("img");
    reveal_strlit("link");
    reveal_strlit("list");
    reveal_strlit("listbox");
    reveal_strlit("listitem");
    reveal_strlit("log");
    reveal_strlit("main");
    reveal_strlit("marquee");
    reveal_strlit("math");
    reveal_strlit("menu");
    reveal_strlit("menubar");
    reveal_strlit("menuitem");
    reveal_strlit("menuitemcheckbox");
    reveal_strlit("menuitemradio");
    reveal_strlit("meter");
    reveal_strlit("navigation");
    reveal_strlit("none");
    reveal_strlit("note");
    reveal_strlit("option");
    reveal_strlit("presentation");
    reveal_strlit("progressbar");
    reveal_strlit("radio");
    reveal_strlit("radiogroup");
    reveal_strlit("region");
    reveal_strlit("row");
    reveal_strlit("rowgroup");
    reveal_strlit("rowheader");
    reveal_strlit("scrollbar");
    reveal_strlit("search");
    reveal_strlit("searchbox");
    reveal_strlit("separator");
    reveal_strlit("slider");
    reveal_strlit("spinbutton");
    reveal_strlit("status");
    reveal_strlit("switch");
    reveal_strlit("tab");
    reveal_strlit("table");
    reveal_strlit("tablist");
    reveal_strlit("tabpanel");
    reveal_strlit("term");
    reveal_strlit("textbox");
    reveal_strlit("timer");
    reveal_strlit("toolbar");
    reveal_strlit("tooltip");
    reveal_strlit("tree");
    reveal_strlit("treegrid");
    reveal_strlit("treeitem");
    reveal_strlit("command");
    reveal_strlit("composite");
    reveal_strlit("input");
    reveal_strlit("landmark");
    reveal_strlit("range");
    reveal_strlit("roletype");
    reveal_strlit("section");
    reveal_strlit("sectionhead");
    reveal_strlit("select");
    reveal_strlit("structure");
    reveal_strlit("widget");
    reveal_strlit("window");
    assert("alert"@ != "toolbar"@) by {
        assert("alert"@.len() != "toolbar"@.len());
    }
    assert("alertdialog"@ != "toolbar"@) by {
        assert("alertdialog"@.len() != "toolbar"@.len());
    }
    assert("application"@ != "toolbar"@) by {
        assert("application"@.len() != "toolbar"@.len());
    }
    assert("article"@ != "toolbar"@) by {
        assert("article"@[0] != "toolbar"@[0]);
    }
    assert("banner"@ != "toolbar"@) by {
        assert("banner"@.len() != "toolbar"@.len());
    }
    assert("button"@ != "toolbar"@) by {
        assert("button"@.len() != "toolbar"@.len());
    }
    assert("cell"@ != "toolbar"@) by {
        assert("cell"@.len() != "toolbar"@.len());
    }
    assert("checkbox"@ != "toolbar"@) by {
        assert("checkbox"@.len() != "toolbar"@.len());
    }
    assert("columnheader"@ != "toolbar"@) by {
        assert("columnheader"@.len() != "toolbar"@.len());
    }
    assert("combobox"@ != "toolbar"@) by {
        assert("combobox"@.len() != "toolbar"@.len());
    }
    assert("complementary"@ != "toolbar"@) by {
        assert("complementary"@.len() != "toolbar"@.len());
    }
    assert("contentinfo"@ != "toolbar"@) by {
        assert("contentinfo"@.len() != "toolbar"@.len());
    }
    assert("definition"@ != "toolbar"@) by {
        assert("definition"@.len() != "toolbar"@.len());
    }
    assert("dialog"@ != "toolbar"@) by {
        assert("dialog"@.len() != "toolbar"@.len());
    }
    assert("directory"@ != "toolbar"@) by {
        assert("directory"@.len() != "toolbar"@.len());
    }
    assert("document"@ != "toolbar"@) by {
        assert("document"@.len() != "toolbar"@.len());
    }
    assert("feed"@ != "toolbar"@) by {
        assert("feed"@.len() != "toolbar"@.len());
    }
    assert("figure"@ != "toolbar"@) by {
        assert("figure"@.len() != "toolbar"@.len());
    }
    assert("form"@ != "toolbar"@) by {
        assert("form"@.len() != "toolbar"@.len());
    }
    assert("grid"@ != "toolbar"@) by {
        assert("grid"@.len() != "toolbar"@.len());
    }
    assert("gridcell"@ != "toolbar"@) by {
        assert("gridcell"@.len() != "toolbar"@.len());
    }
    assert("group"@ != "toolbar"@) by {
        assert("group"@.len() != "toolbar"@.len());
    }
    assert("heading"@ != "toolbar"@) by {
        assert("heading"@[0] != "toolbar"@[0]);
    }
    assert("img"@ != "toolbar"@) by {
        assert("img"@.len() != "toolbar"@.len());
    }
    assert("link"@ != "toolbar"@) by {
        assert("link"@.len() != "toolbar"@.len());
    }
    assert("list"@ != "toolbar"@) by {
        assert("list"@.len() != "toolbar"@.len());
    }
    assert("listbox"@ != "toolbar"@) by {
        assert("listbox"@[0] != "toolbar"@[0]);
    }
    assert("listitem"@ != "toolbar"@) by {
        assert("listitem"@.len() != "toolbar"@.len());
    }
    assert("log"@ != "toolbar"@) by {
        assert("log"@.len() != "toolbar"@.len());
    }
    assert("main"@ != "toolbar"@) by {
        assert("main"@.len() != "toolbar"@.len());
    }
    assert("marquee"@ != "toolbar"@) by {
        assert("marquee"@[0] != "toolbar"@[0]);
    }
    assert("math"@ != "toolbar"@) by {
        assert("math"@.len() != "toolbar"@.len());
    }
    assert("menu"@ != "toolbar"@) by {
        assert("menu"@.len() != "toolbar"@.len());
    }
    assert("menubar"@ != "toolbar"@) by {
        assert("menubar"@[0] != "toolbar"@[0]);
    }
    assert("menuitem"@ != "toolbar"@) by {
        assert("menuitem"@.len() != "toolbar"@.len());
    }
    assert("menuitemcheckbox"@ != "toolbar"@) by {
        assert("menuitemcheckbox"@.len() != "toolbar"@.len());
    }
    assert("menuitemradio"@ != "toolbar"@) by {
        assert("menuitemradio"@.len() != "toolbar"@.len());
    }
    assert("meter"@ != "toolbar"@) by {
        assert("meter"@.len() != "toolbar"@.len());
    }
    assert("navigation"@ != "toolbar"@) by {
        assert("navigation"@.len() != "toolbar"@.len());
    }
    assert("none"@ != "toolbar"@) by {
        assert("none"@.len() != "toolbar"@.len());
    }
    assert("note"@ != "toolbar"@) by {
        assert("note"@.len() != "toolbar"@.len());
    }
    assert("option"@ != "toolbar"@) by {
        assert("option"@.len() != "toolbar"@.len());
    }
    assert("presentation"@ != "toolbar"@) by {
        assert("presentation"@.len() != "toolbar"@.len());
    }
    assert("progressbar"@ != "toolbar"@) by {
        assert("progressbar"@.len() != "toolbar"@.len());
    }
    assert("radio"@ != "toolbar"@) by {
        assert("radio"@.len() != "toolbar"@.len());
    }
    assert("radiogroup"@ != "toolbar"@) by {
        assert("radiogroup"@.len() != "toolbar"@.len());
    }
    assert("region"@ != "toolbar"@) by {
        assert("region"@.len() != "toolbar"@.len());
    }
    assert("row"@ != "toolbar"@) by {
        assert("row"@.len() != "toolbar"@.len());
    }
    assert("rowgroup"@ != "toolbar"@) by {
        assert("rowgroup"@.len() != "toolbar"@.len());
    }
    assert("rowheader"@ != "toolbar"@) by {
        assert("rowheader"@.len() != "toolbar"@.len());
    }
    assert("scrollbar"@ != "toolbar"@) by {
        assert("scrollbar"@.len() != "toolbar"@.len());
    }
    assert("search"@ != "toolbar"@) by {
        assert("search"@.len() != "toolbar"@.len());
    }
    assert("searchbox"@ != "toolbar"@) by {
        assert("searchbox"@.len() != "toolbar"@.len());
    }
    assert("separator"@ != "toolbar"@) by {
        assert("separator"@.len() != "toolbar"@.len());
    }
    assert("slider"@ != "toolbar"@) by {
        assert("slider"@.len() != "toolbar"@.len());
    }
    assert("spinbutton"@ != "toolbar"@) by {
        assert("spinbutton"@.len() != "toolbar"@.len());
    }
    assert("status"@ != "toolbar"@) by {
        assert("status"@.len() != "toolbar"@.len());
    }
    assert("switch"@ != "toolbar"@) by {
        assert("switch"@.len() != "toolbar"@.len());
    }
    assert("tab"@ != "toolbar"@) by {
        assert("tab"@.len() != "toolbar"@.len());
    }
    assert("table"@ != "toolbar"@) by {
        assert("table"@.len() != "toolbar"@.len());
    }
    assert("tablist"@ != "toolbar"@) by {
        assert("tablist"@[1] != "toolbar"@[1]);
    }
    assert("tabpanel"@ != "toolbar"@) by {
        assert("tabpanel"@.len() != "toolbar"@.len());
    }
    assert("term"@ != "toolbar"@) by {
        assert("term"@.len() != "toolbar"@.len());
    }
    assert("textbox"@ != "toolbar"@) by {
        assert("textbox"@[1] != "toolbar"@[1]);
    }
    assert("timer"@ != "toolbar"@) by {
        assert("timer"@.len() != "toolbar"@.len());
    }
    assert("tooltip"@ != "toolbar"@) by {
        assert("tooltip"@[4] != "toolbar"@[4]);
    }
    assert("tree"@ != "toolbar"@) by {
        assert("tree"@.len() != "toolbar"@.len());
    }
    assert("treegrid"@ != "toolbar"@) by {
        assert("treegrid"@.len() != "toolbar"@.len());
    }
    assert("treeitem"@ != "toolbar"@) by {
        assert("treeitem"@.len() != "toolbar"@.len());
    }
    assert("command"@ != "toolbar"@) by {
        assert("command"@[0] != "toolbar"@[0]);
    }
    assert("composite"@ != "toolbar"@) by {
        assert("composite"@.len() != "toolbar"@.len());
    }
    assert("input"@ != "toolbar"@) by {
        assert("input"@.len() != "toolbar"@.len());
    }
    assert("landmark"@ != "toolbar"@) by {
        assert("landmark"@.len() != "toolbar"@.len());
    }
    assert("range"@ != "toolbar"@) by {
        assert("range"@.len() != "toolbar"@.len());
    }
    assert("roletype"@ != "toolbar"@) by {
        assert("roletype"@.len() != "toolbar"@.len());
    }
    assert("section"@ != "toolbar"@) by {
        assert("section"@[0] != "toolbar"@[0]);
    }
    assert("sectionhead"@ != "toolbar"@) by {
        assert("sectionhead"@.len() != "toolbar"@.len());
    }
    assert("select"@ != "toolbar"@) by {
        assert("select"@.len() != "toolbar"@.len());
    }
    assert("structure"@ != "toolbar"@) by {
        assert("structure"@.len() != "toolbar"@.len());
    }
    assert("widget"@ != "toolbar"@) by {
        assert("widget"@.len() != "toolbar"@.len());
    }
    assert("window"@ != "toolbar"@) by {
        assert("window"@.len() != "toolbar"@.len());
    }
}

proof fn role_name_unique_tooltip(b: Role)
    requires
        b.name_spec() == "tooltip"@,
    ensures
        b == Role::Tooltip,
{
    reveal_strlit("alert");
    reveal_strlit("alertdialog");
    reveal_strlit("application");
    reveal_strlit("article");
    reveal_strlit("banner");
    reveal_strlit("button");
    reveal_strlit("cell");
    reveal_strlit("checkbox");
    reveal_strlit("columnheader");
    reveal_strlit("combobox");
    reveal_strlit("complementary");
    reveal_strlit("contentinfo");
    reveal_strlit("definition");
    reveal_strlit("dialog");
    reveal_strlit("directory");
    reveal_strlit("document");
    reveal_strlit("feed");
    reveal_strlit("figure");
    reveal_strlit("form");
    reveal_strlit("grid");
    reveal_strlit("gridcell");
    reveal_strlit("group");
    reveal_strlit("heading");
    reveal_strlit("img");
    reveal_strlit("link");
    reveal_strlit("list");
    reveal_strlit("listbox");
    reveal_strlit("listitem");
    reveal_strlit("log");
    reveal_strlit("main");
    reveal_strlit("marquee");
    reveal_strlit("math");
    reveal_strlit("menu");
    reveal_strlit("menubar");
    reveal_strlit("menuitem");
    reveal_strlit("menuitemcheckbox");
    reveal_strlit("menuitemradio");
    reveal_strlit("meter");
    reveal_strlit("navigation");
    reveal_strlit("none");
    reveal_strlit("note");
    reveal_strlit("option");
    reveal_strlit("presentation");
    reveal_strlit("progressbar");
    reveal_strlit("radio");
    reveal_strlit("radiogroup");
    reveal_strlit("region");
    reveal_strlit("row");
    reveal_strlit("rowgroup");
    reveal_strlit("rowheader");
    reveal_strlit("scrollbar");
    reveal_strlit("search");
    reveal_strlit("searchbox");
    reveal_strlit("separator");
    reveal_strlit("slider");
    reveal_strlit("spinbutton");
    reveal_strlit("status");
    reveal_strlit("switch");
    reveal_strlit("tab");
    reveal_strlit("table");
    reveal_strlit("tablist");
    reveal_strlit("tabpanel");
    reveal_strlit("term");
    reveal_strlit("textbox");
    reveal_strlit("timer");
    reveal_strlit("toolbar");
    reveal_strlit("tooltip");
    reveal_strlit("tree");
    reveal_strlit("treegrid");
    reveal_strlit("treeitem");
    reveal_strlit("command");
    reveal_strlit("composite");
    reveal_strlit("input");
    reveal_strlit("landmark");
    reveal_strlit("range");
    reveal_strlit("roletype");
    reveal_strlit("section");
    reveal_strlit("sectionhead");
    reveal_strlit("select");
    reveal_strlit("structure");
    reveal_strlit("widget");
    reveal_strlit("window");
    assert("alert"@ != "tooltip"@) by {
        assert("alert"@.len() != "tooltip"@.len());
    }
    assert("alertdialog"@ != "tooltip"@) by {
        assert("alertdialog"@.len() != "tooltip"@.len());
    }
    assert("application"@ != "tooltip"@) by {
        assert("application"@.len() != "tooltip"@.len());
    }
    assert("article"@ != "tooltip"@) by {
        assert("article"@[0] != "tooltip"@[0]);
    }
    assert("banner"@ != "tooltip"@) by {
        assert("banner"@.len() != "tooltip"@.len());
    }
    assert("button"@ != "tooltip"@) by {
        assert("button"@.len() != "tooltip"@.len());
    }
    assert("cell"@ != "tooltip"@) by {
        assert("cell"@.len() != "tooltip"@.len());
    }
    assert("checkbox"@ != "tooltip"@) by {
        assert("checkbox"@.len() != "tooltip"@.len());
    }
    assert("columnheader"@ != "tooltip"@) by {
        assert("columnheader"@.len() != "tooltip"@.len());
    }
    assert("combobox"@ != "tooltip"@) by {
        assert("combobox"@.len() != "tooltip"@.len());
    }
    assert("complementary"@ != "tooltip"@) by {
        assert("complementary"@.len() != "tooltip"@.len());
    }
    assert("contentinfo"@ != "tooltip"@) by {
        assert("contentinfo"@.len() != "tooltip"@.len());
    }
    assert("definition"@ != "tooltip"@) by {
        assert("definition"@.len() != "tooltip"@.len());
    }
    assert("dialog"@ != "tooltip"@) by {
        assert("dialog"@.len() != "tooltip"@.len());
    }
    assert("directory"@ != "tooltip"@) by {
        assert("directory"@.len() != "tooltip"@.len());
    }
    assert("document"@ != "tooltip"@) by {
        assert("document"@.len() != "tooltip"@.len());
    }
    assert("feed"@ != "tooltip"@) by {
        assert("feed"@.len() != "tooltip"@.len());
    }
    assert("figure"@ != "tooltip"@) by {
        assert("figure"@.len() != "tooltip"@.len());
    }
    assert("form"@ != "tooltip"@) by {
        assert("form"@.len() != "tooltip"@.len());
    }
    assert("grid"@ != "tooltip"@) by {
        assert("grid"@.len() != "tooltip"@.len());
    }
    assert("gridcell"@ != "tooltip"@) by {
        assert("gridcell"@.len() != "tooltip"@.len());
    }
    assert("group"@ != "tooltip"@) by {
        assert("group"@.len() != "tooltip"@.len());
    }
    assert("heading"@ != "tooltip"@) by {
        assert("heading"@[0] != "tooltip"@[0]);
    }
    assert("img"@ != "tooltip"@) by {
        assert("img"@.len() != "tooltip"@.len());
    }
    assert("link"@ != "tooltip"@) by {
        assert("link"@.len() != "tooltip"@.len());
    }
    assert("list"@ != "tooltip"@) by {
        assert("list"@.len() != "tooltip"@.len());
    }
    assert("listbox"@ != "tooltip"@) by {
        assert("listbox"@[0] != "tooltip"@[0]);
    }
    assert("listitem"@ != "tooltip"@) by {
        assert("listitem"@.len() != "tooltip"@.len());
    }
    assert("log"@ != "tooltip"@) by {
        assert("log"@.len() != "tooltip"@.len());
    }
    assert("main"@ != "tooltip"@) by {
        assert("main"@.len() != "tooltip"@.len());
    }
    assert("marquee"@ != "tooltip"@) by {
        assert("marquee"@[0] != "tooltip"@[0]);
    }
    assert("math"@ != "tooltip"@) by {
        assert("math"@.len() != "tooltip"@.len());
    }
    assert("menu"@ != "tooltip"@) by {
        assert("menu"@.len() != "tooltip"@.len());
    }
    assert("menubar"@ != "tooltip"@) by {
        assert("menubar"@[0] != "tooltip"@[0]);
    }
    assert("menuitem"@ != "tooltip"@) by {
        assert("menuitem"@.len() != "tooltip"@.len());
    }
    assert("menuitemcheckbox"@ != "tooltip"@) by {
        assert("menuitemcheckbox"@.len() != "tooltip"@.len());
    }
    assert("menuitemradio"@ != "tooltip"@) by {
        assert("menuitemradio"@.len() != "tooltip"@.len());
    }
    assert("meter"@ != "tooltip"@) by {
        assert("meter"@.len() != "tooltip"@.len());
    }
    assert("navigation"@ != "tooltip"@) by {
        assert("navigation"@.len() != "tooltip"@.len());
    }
    assert("none"@ != "tooltip"@) by {
        assert("none"@.len() != "tooltip"@.len());
    }
    assert("note"@ != "tooltip"@) by {
        assert("note"@.len() != "tooltip"@.len());
    }
    assert("option"@ != "tooltip"@) by {
        assert("option"@.len() != "tooltip"@.len());
    }
    assert("presentation"@ != "tooltip"@) by {
        assert("presentation"@.len() != "tooltip"@.len());
    }
    assert("progressbar"@ != "tooltip"@) by {
        assert("progressbar"@.len() != "tooltip"@.len());
    }
    assert("radio"@ != "tooltip"@) by {
        assert("radio"@.len() != "tooltip"@.len());
    }
    assert("radiogroup"@ != "tooltip"@) by {
        assert("radiogroup"@.len() != "tooltip"@.len());
    }
    assert("region"@ != "tooltip"@) by {
        assert("region"@.len() != "tooltip"@.len());
    }
    assert("row"@ != "tooltip"@) by {
        assert("row"@.len() != "tooltip"@.len());
    }
    assert("rowgroup"@ != "tooltip"@) by {
        assert("rowgroup"@.len() != "tooltip"@.len());
    }
    assert("rowheader"@ != "tooltip"@) by {
        assert("rowheader"@.len() != "tooltip"@.len());
    }
    assert("scrollbar"@ != "tooltip"@) by {
        assert("scrollbar"@.len() != "tooltip"@.len());
    }
    assert("search"@ != "tooltip"@) by {
        assert("search"@.len() != "tooltip"@.len());
    }
    assert("searchbox"@ != "tooltip"@) by {
        assert("searchbox"@.len() != "tooltip"@.len());
    }
    assert("separator"@ != "tooltip"@) by {
        assert("separator"@.len() != "tooltip"@.len());
    }
    assert("slider"@ != "tooltip"@) by {
        assert("slider"@.len() != "tooltip"@.len());
    }
    assert("spinbutton"@ != "tooltip"@) by {
        assert("spinbutton"@.len() != "tooltip"@.len());
    }
    assert("status"@ != "tooltip"@) by {
        assert("status"@.len() != "tooltip"@.len());
    }
    assert("switch"@ != "tooltip"@) by {
        assert("switch"@.len() != "tooltip"@.len());
    }
    assert("tab"@ != "tooltip"@) by {
        assert("tab"@.len() != "tooltip"@.len());
    }
    assert("table"@ != "tooltip"@) by {
        assert("table"@.len() != "tooltip"@.len());
    }
    assert("tablist"@ != "tooltip"@) by {
        assert("tablist"@[1] != "tooltip"@[1]);
    }
    assert("tabpanel"@ != "tooltip"@) by {
        assert("tabpanel"@.len() != "tooltip"@.len());
    }
    assert("term"@ != "tooltip"@) by {
        assert("term"@.len() != "tooltip"@.len());
    }
    assert("textbox"@ != "tooltip"@) by {
        assert("textbox"@[1] != "tooltip"@[1]);
    }
    assert("timer"@ != "tooltip"@) by {
        assert("timer"@.len() != "tooltip"@.len());
    }
    assert("toolbar"@ != "tooltip"@) by {
        assert("toolbar"@[4] != "tooltip"@[4]);
    }
    assert("tree"@ != "tooltip"@) by {
        assert("tree"@.len() != "tooltip"@.len());
    }
    assert("treegrid"@ != "tooltip"@) by {
        assert("treegrid"@.len() != "tooltip"@.len());
    }
    assert("treeitem"@ != "tooltip"@) by {
        assert("treeitem"@.len() != "tooltip"@.len());
    }
    assert("command"@ != "tooltip"@) by {
        assert("command"@[0] != "tooltip"@[0]);
    }
    assert("composite"@ != "tooltip"@) by {
        assert("composite"@.len() != "tooltip"@.len());
    }
    assert("input"@ != "tooltip"@) by {
        assert("input"@.len() != "tooltip"@.len());
    }
    assert("landmark"@ != "tooltip"@) by {
        assert("landmark"@.len() != "tooltip"@.len());
    }
    assert("range"@ != "tooltip"@) by {
        assert("range"@.len() != "tooltip"@.len());
    }
    assert("roletype"@ != "tooltip"@) by {
        assert("roletype"@.len() != "tooltip"@.len());
    }
    assert("section"@ != "tooltip"@) by {
        assert("section"@[0] != "tooltip"@[0]);
    }
    assert("sectionhead"@ != "tooltip"@) by {
        assert("sectionhead"@.len() != "tooltip"@.len());
    }
    assert("select"@ != "tooltip"@) by {
        assert("select"@.len() != "tooltip"@.len());
    }
    assert("structure"@ != "tooltip"@) by {
        assert("structure"@.len() != "tooltip"@.len());
    }
    assert("widget"@ != "tooltip"@) by {
        assert("widget"@.len() != "tooltip"@.len());
    }
    assert("window"@ != "tooltip"@) by {
        assert("window"@.len() != "tooltip"@.len());
    }
}

proof fn role_name_unique_tree(b: Role)
    requires
        b.name_spec() == "tree"@,
    ensures
        b == Role::Tree,
{
    reveal_strlit("alert");
    reveal_strlit("alertdialog");
    reveal_strlit("application");
    reveal_strlit("article");
    reveal_strlit("banner");
    reveal_strlit("button");
    reveal_strlit("cell");
    reveal_strlit("checkbox");
    reveal_strlit("columnheader");
    reveal_strlit("combobox");
    reveal_strlit("complementary");
    reveal_strlit("contentinfo");
    reveal_strlit("definition");
    reveal_strlit("dialog");
    reveal_strlit("directory");
    reveal_strlit("document");
    reveal_strlit("feed");
    reveal_strlit("figure");
    reveal_strlit("form");
    reveal_strlit("grid");
    reveal_strlit("gridcell");
    reveal_strlit("group");
    reveal_strlit("heading");
    reveal_strlit("img");
    reveal_strlit("link");
    reveal_strlit("list");
    reveal_strlit("listbox");
    reveal_strlit("listitem");
    reveal_strlit("log");
    reveal_strlit("main");
    reveal_strlit("marquee");
    reveal_strlit("math");
    reveal_strlit("menu");
    reveal_strlit("menubar");
    reveal_strlit("menuitem");
    reveal_strlit("menuitemcheckbox");
    reveal_strlit("menuitemradio");
    reveal_strlit("meter");
    reveal_strlit("navigation");
    reveal_strlit("none");
    reveal_strlit("note");
    reveal_strlit("option");
    reveal_strlit("presentation");
    reveal_strlit("progressbar");
    reveal_strlit("radio");
    reveal_strlit("radiogroup");
    reveal_strlit("region");
    reveal_strlit("row");
    reveal_strlit("rowgroup");
    reveal_strlit("rowheader");
    reveal_strlit("scrollbar");
    reveal_strlit("search");
    reveal_strlit("searchbox");
    reveal_strlit("separator");
    reveal_strlit("slider");
    reveal_strlit("spinbutton");
    reveal_strlit("status");
    reveal_strlit("switch");
    reveal_strlit("tab");
    reveal_strlit("table");
    reveal_strlit("tablist");
    reveal_strlit("tabpanel");
    reveal_strlit("term");
    reveal_strlit("textbox");
    reveal_strlit("timer");
    reveal_strlit("toolbar");
    reveal_strlit("tooltip");
    reveal_strlit("tree");
    reveal_strlit("treegrid");
    reveal_strlit("treeitem");
    reveal_strlit("command");
    reveal_strlit("composite");
    reveal_strlit("input");
    reveal_strlit("landmark");
    reveal_strlit("range");
    reveal_strlit("roletype");
    reveal_strlit("section");
    reveal_strlit("sectionhead");
    reveal_strlit("select");
    reveal_strlit("structure");
    reveal_strlit("widget");
    reveal_strlit("window");
    assert("alert"@ != "tree"@) by {
        assert("alert"@.len() != "tree"@.len());
    }
    assert("alertdialog"@ != "tree"@) by {
        assert("alertdialog"@.len() != "tree"@.len());
    }
    assert("application"@ != "tree"@) by {
        assert("application"@.len() != "tree"@.len());
    }
    assert("article"@ != "tree"@) by {
        assert("article"@.len() != "tree"@.len());
    }
    assert("banner"@ != "tree"@) by {
        assert("banner"@.len() != "tree"@.len());
    }
    assert("button"@ != "tree"@) by {
        assert("button"@.len() != "tree"@.len());
    }
    assert("cell"@ != "tree"@) by {
        assert("cell"@[0] != "tree"@[0]);
    }
    assert("checkbox"@ != "tree"@) by {
        assert("checkbox"@.len() != "tree"@.len());
    }
    assert("columnheader"@ != "tree"@) by {
        assert("columnheader"@.len() != "tree"@.len());
    }
    assert("combobox"@ != "tree"@) by {
        assert("combobox"@.len() != "tree"@.len());
    }
    assert("complementary"@ != "tree"@) by {
        assert("complementary"@.len() != "tree"@.len());
    }
    assert("contentinfo"@ != "tree"@) by {
        assert("contentinfo"@.len() != "tree"@.len());
    }
    assert("definition"@ != "tree"@) by {
        assert("definition"@.len() != "tree"@.len());
    }
    assert("dialog"@ != "tree"@) by {
        assert("dialog"@.len() != "tree"@.len());
    }
    assert("directory"@ != "tree"@) by {
        assert("directory"@.len() != "tree"@.len());
    }
    assert("document"@ != "tree"@) by {
        assert("document"@.len() != "tree"@.len());
    }
    assert("feed"@ != "tree"@) by {
        assert("feed"@[0] != "tree"@[0]);
    }
    assert("figure"@ != "tree"@) by {
        assert("figure"@.len() != "tree"@.len());
    }
    assert("form"@ != "tree"@) by {
        assert("form"@[0] != "tree"@[0]);
    }
    assert("grid"@ != "tree"@) by {
        assert("grid"@[0] != "tree"@[0]);
    }
    assert("gridcell"@ != "tree"@) by {
        assert("gridcell"@.len() != "tree"@.len());
    }
    assert("group"@ != "tree"@) by {
        assert("group"@.len() != "tree"@.len());
    }
    assert("heading"@ != "tree"@) by {
        assert("heading"@.len() != "tree"@.len());
    }
    assert("img"@ != "tree"@) by {
        assert("img"@.len() != "tree"@.len());
    }
    assert("link"@ != "tree"@) by {
        assert("link"@[0] != "tree"@[0]);
    }
    assert("list"@ != "tree"@) by {
        assert("list"@[0] != "tree"@[0]);
    }
    assert("listbox"@ != "tree"@) by {
        assert("listbox"@.len() != "tree"@.len());
    }
    assert("listitem"@ != "tree"@) by {
        assert("listitem"@.len() != "tree"@.len());
    }
    assert("log"@ != "tree"@) by {
        assert("log"@.len() != "tree"@.len());
    }
    assert("main"@ != "tree"@) by {
        assert("main"@[0] != "tree"@[0]);
    }
    assert("marquee"@ != "tree"@) by {
        assert("marquee"@.len() != "tree"@.len());
    }
    assert("math"@ != "tree"@) by {
        assert("math"@[0] != "tree"@[0]);
    }
    assert("menu"@ != "tree"@) by {
        assert("menu"@[0] != "tree"@[0]);
    }
    assert("menubar"@ != "tree"@) by {
        assert("menubar"@.len() != "tree"@.len());
    }
    assert("menuitem"@ != "tree"@) by {
        assert("menuitem"@.len() != "tree"@.len());
    }
    assert("menuitemcheckbox"@ != "tree"@) by {
        assert("menuitemcheckbox"@.len() != "tree"@.len());
    }
    assert("menuitemradio"@ != "tree"@) by {
        assert("menuitemradio"@.len() != "tree"@.len());
    }
    assert("meter"@ != "tree"@) by {
        assert("meter"@.len() != "tree"@.len());
    }
    assert("navigation"@ != "tree"@) by {
        assert("navigation"@.len() != "tree"@.len());
    }
    assert("none"@ != "tree"@) by {
        assert("none"@[0] != "tree"@[0]);
    }
    assert("note"@ != "tree"@) by {
        assert("note"@[0] != "tree"@[0]);
    }
    assert("option"@ != "tree"@) by {
        assert("option"@.len() != "tree"@.len());
    }
    assert("presentation"@ != "tree"@) by {
        assert("presentation"@.len() != "tree"@.len());
    }
    assert("progressbar"@ != "tree"@) by {
        assert("progressbar"@.len() != "tree"@.len());
    }
    assert("radio"@ != "tree"@) by {
        assert("radio"@.len() != "tree"@.len());
    }
    assert("radiogroup"@ != "tree"@) by {
        assert("radiogroup"@.len() != "tree"@.len());
    }
    assert("region"@ != "tree"@) by {
        assert("region"@.len() != "tree"@.len());
    }
    assert("row"@ != "tree"@) by {
        assert("row"@.len() != "tree"@.len());
    }
    assert("rowgroup"@ != "tree"@) by {
        assert("rowgroup"@.len() != "tree"@.len());
    }
    assert("rowheader"@ != "tree"@) by {
        assert("rowheader"@.len() != "tree"@.len());
    }
    assert("scrollbar"@ != "tree"@) by {
        assert("scrollbar"@.len() != "tree"@.len());
    }
    assert("search"@ != "tree"@) by {
        assert("search"@.len() != "tree"@.len());
    }
    assert("searchbox"@ != "tree"@) by {
        assert("searchbox"@.len() != "tree"@.len());
    }
    assert("separator"@ != "tree"@) by {
        assert("separator"@.len() != "tree"@.len());
    }
    assert("slider"@ != "tree"@) by {
        assert("slider"@.len() != "tree"@.len());
    }
    assert("spinbutton"@ != "tree"@) by {
        assert("spinbutton"@.len() != "tree"@.len());
    }
    assert("status"@ != "tree"@) by {
        assert("status"@.len() != "tree"@.len());
    }
    assert("switch"@ != "tree"@) by {
        assert("switch"@.len() != "tree"@.len());
    }
    assert("tab"@ != "tree"@) by {
        assert("tab"@.len() != "tree"@.len());
    }
    assert("table"@ != "tree"@) by {
        assert("table"@.len() != "tree"@.len());
    }
    assert("tablist"@ != "tree"@) by {
        assert("tablist"@.len() != "tree"@.len());
    }
    assert("tabpanel"@ != "tree"@) by {
        assert("tabpanel"@.len() != "tree"@.len());
    }
    assert("term"@ != "tree"@) by {
        assert("term"@[1] != "tree"@[1]);
    }
    assert("textbox"@ != "tree"@) by {
        assert("textbox"@.len() != "tree"@.len());
    }
    assert("timer"@ != "tree"@) by {
        assert("timer"@.len() != "tree"@.len());
    }
    assert("toolbar"@ != "tree"@) by {
        assert("toolbar"@.len() != "tree"@.len());
    }
    assert("tooltip"@ != "tree"@) by {
        assert("tooltip"@.len() != "tree"@.len());
    }
    assert("treegrid"@ != "tree"@) by {
        assert("treegrid"@.len() != "tree"@.len());
    }
    assert("treeitem"@ != "tree"@) by {
        assert("treeitem"@.len() != "tree"@.len());
    }
    assert("command"@ != "tree"@) by {
        assert("command"@.len() != "tree"@.len());
    }
    assert("composite"@ != "tree"@) by {
        assert("composite"@.len() != "tree"@.len());
    }
    assert("input"@ != "tree"@) by {
        assert("input"@.len() != "tree"@.len());
    }
    assert("landmark"@ != "tree"@) by {
        assert("landmark"@.len() != "tree"@.len());
    }
    assert("range"@ != "tree"@) by {
        assert("range"@.len() != "tree"@.len());
    }
    assert("roletype"@ != "tree"@) by {
        assert("roletype"@.len() != "tree"@.len());
    }
    assert("section"@ != "tree"@) by {
        assert("section"@.len() != "tree"@.len());
    }
    assert("sectionhead"@ != "tree"@) by {
        assert("sectionhead"@.len() != "tree"@.len());
    }
    assert("select"@ != "tree"@) by {
        assert("select"@.len() != "tree"@.len());
    }
    assert("structure"@ != "tree"@) by {
        assert("structure"@.len() != "tree"@.len());
    }
    assert("widget"@ != "tree"@) by {
        assert("widget"@.len() != "tree"@.len());
    }
    assert("window"@ != "tree"@) by {
        assert("window"@.len() != "tree"@.len());
    }
}

proof fn role_name_unique_treegrid(b: Role)
    requires
        b.name_spec() == "treegrid"@,
    ensures
        b == Role::TreeGrid,
{
    reveal_strlit("alert");
    reveal_strlit("alertdialog");
    reveal_strlit("application");
    reveal_strlit("article");
    reveal_strlit("banner");
    reveal_strlit("button");
    reveal_strlit("cell");
    reveal_strlit("checkbox");
    reveal_strlit("columnheader");
    reveal_strlit("combobox");
    reveal_strlit("complementary");
    reveal_strlit("contentinfo");
    reveal_strlit("definition");
    reveal_strlit("dialog");
    reveal_strlit("directory");
    reveal_strlit("document");
    reveal_strlit("feed");
    reveal_strlit("figure");
    reveal_strlit("form");
    reveal_strlit("grid");
    reveal_strlit("gridcell");
    reveal_strlit("group");
    reveal_strlit("heading");
    reveal_strlit("img");
    reveal_strlit("link");
    reveal_strlit("list");
    reveal_strlit("listbox");
    reveal_strlit("listitem");
    reveal_strlit("log");
    reveal_strlit("main");
    reveal_strlit("marquee");
    reveal_strlit("math");
    reveal_strlit("menu");
    reveal_strlit("menubar");
    reveal_strlit("menuitem");
    reveal_strlit("menuitemcheckbox");
    reveal_strlit("menuitemradio");
    reveal_strlit("meter");
    reveal_strlit("navigation");
    reveal_strlit("none");
    reveal_strlit("note");
    reveal_strlit("option");
    reveal_strlit("presentation");
    reveal_strlit("progressbar");
    reveal_strlit("radio");
    reveal_strlit("radiogroup");
    reveal_strlit("region");
    reveal_strlit("row");
    reveal_strlit("rowgroup");
    reveal_strlit("rowheader");
    reveal_strlit("scrollbar");
    reveal_strlit("search");
    reveal_strlit("searchbox");
    reveal_strlit("separator");
    reveal_strlit("slider");
    reveal_strlit("spinbutton");
    reveal_strlit("status");
    reveal_strlit("switch");
    reveal_strlit("tab");
    reveal_strlit("table");
    reveal_strlit("tablist");
    reveal_strlit("tabpanel");
    reveal_strlit("term");
    reveal_strlit("textbox");
    reveal_strlit("timer");
    reveal_strlit("toolbar");
    reveal_strlit("tooltip");
    reveal_strlit("tree");
    reveal_strlit("treegrid");
    reveal_strlit("treeitem");
    reveal_strlit("command");
    reveal_strlit("composite");
    reveal_strlit("input");
    reveal_strlit("landmark");
    reveal_strlit("range");
    reveal_strlit("roletype");
    reveal_strlit("section");
    reveal_strlit("sectionhead");
    reveal_strlit("select");
    reveal_strlit("structure");
    reveal_strlit("widget");
    reveal_strlit("window");
    assert("alert"@ != "treegrid"@) by {
        assert("alert"@.len() != "treegrid"@.len());
    }
    assert("alertdialog"@ != "treegrid"@) by {
        assert("alertdialog"@.len() != "treegrid"@.len());
    }
    assert("application"@ != "treegrid"@) by {
        assert("application"@.len() != "treegrid"@.len());
    }
    assert("article"@ != "treegrid"@) by {
        assert("article"@.len() != "treegrid"@.len());
    }
    assert("banner"@ != "treegrid"@) by {
        assert("banner"@.len() != "treegrid"@.len());
    }
    assert("button"@ != "treegrid"@) by {
        assert("button"@.len() != "treegrid"@.len());
    }
    assert("cell"@ != "treegrid"@) by {
        assert("cell"@.len() != "treegrid"@.len());
    }
    assert("checkbox"@ != "treegrid"@) by {
        assert("checkbox"@[0] != "treegrid"@[0]);
    }
    assert("columnheader"@ != "treegrid"@) by {
        assert("columnheader"@.len() != "treegrid"@.len());
    }
    assert("combobox"@ != "treegrid"@) by {
        assert("combobox"@[0] != "treegrid"@[0]);
    }
    assert("complementary"@ != "treegrid"@) by {
        assert("complementary"@.len() != "treegrid"@.len());
    }
    assert("contentinfo"@ != "treegrid"@) by {
        assert("contentinfo"@.len() != "treegrid"@.len());
    }
    assert("definition"@ != "treegrid"@) by {
        assert("definition"@.len() != "treegrid"@.len());
    }
    assert("dialog"@ != "treegrid"@) by {
        assert("dialog"@.len() != "treegrid"@.len());
    }
    assert("directory"@ != "treegrid"@) by {
        assert("directory"@.len() != "treegrid"@.len());
    }
    assert("document"@ != "treegrid"@) by {
        assert("document"@[0] != "treegrid"@[0]);
    }
    assert("feed"@ != "treegrid"@) by {
        assert("feed"@.len() != "treegrid"@.len());
    }
    assert("figure"@ != "treegrid"@) by {
        assert("figure"@.len() != "treegrid"@.len());
    }
    assert("form"@ != "treegrid"@) by {
        assert("form"@.len() != "treegrid"@.len());
    }
    assert("grid"@ != "treegrid"@) by {
        assert("grid"@.len() != "treegrid"@.len());
    }
    assert("gridcell"@ != "treegrid"@) by {
        assert("gridcell"@[0] != "treegrid"@[0]);
    }
    assert("group"@ != "treegrid"@) by {
        assert("group"@.len() != "treegrid"@.len());
    }
    assert("heading"@ != "treegrid"@) by {
        assert("heading"@.len() != "treegrid"@.len());
    }
    assert("img"@ != "treegrid"@) by {
        assert("img"@.len() != "treegrid"@.len());
    }
    assert("link"@ != "treegrid"@) by {
        assert("link"@.len() != "treegrid"@.len());
    }
    assert("list"@ != "treegrid"@) by {
        assert("list"@.len() != "treegrid"@.len());
    }
    assert("listbox"@ != "treegrid"@) by {
        assert("listbox"@.len() != "treegrid"@.len());
    }
    assert("listitem"@ != "treegrid"@) by {
        assert("listitem"@[0] != "treegrid"@[0]);
    }
    assert("log"@ != "treegrid"@) by {
        assert("log"@.len() != "treegrid"@.len());
    }
    assert("main"@ != "treegrid"@) by {
        assert("main"@.len() != "treegrid"@.len());
    }
    assert("marquee"@ != "treegrid"@) by {
        assert("marquee"@.len() != "treegrid"@.len());
    }
    assert("math"@ != "treegrid"@) by {
        assert("math"@.len() != "treegrid"@.len());
    }
    assert("menu"@ != "treegrid"@) by {
        assert("menu"@.len() != "treegrid"@.len());
    }
    assert("menubar"@ != "treegrid"@) by {
        assert("menubar"@.len() != "treegrid"@.len());
    }
    assert("menuitem"@ != "treegrid"@) by {
        assert("menuitem"@[0] != "treegrid"@[0]);
    }
    assert("menuitemcheckbox"@ != "treegrid"@) by {
        assert("menuitemcheckbox"@.len() != "treegrid"@.len());
    }
    assert("menuitemradio"@ != "treegrid"@) by {
        assert("menuitemradio"@.len() != "treegrid"@.len());
    }
    assert("meter"@ != "treegrid"@) by {
        assert("meter"@.len() != "treegrid"@.len());
    }
    assert("navigation"@ != "treegrid"@) by {
        assert("navigation"@.len() != "treegrid"@.len());
    }
    assert("none"@ != "treegrid"@) by {
        assert("none"@.len() != "treegrid"@.len());
    }
    assert("note"@ != "treegrid"@) by {
        assert("note"@.len() != "treegrid"@.len());
    }
    assert("option"@ != "treegrid"@) by {
        assert("option"@.len() != "treegrid"@.len());
    }
    assert("presentation"@ != "treegrid"@) by {
        assert("presentation"@.len() != "treegrid"@.len());
    }
    assert("progressbar"@ != "treegrid"@) by {
        assert("progressbar"@.len() != "treegrid"@.len());
    }
    assert("radio"@ != "treegrid"@) by {
        assert("radio"@.len() != "treegrid"@.len());
    }
    assert("radiogroup"@ != "treegrid"@) by {
        assert("radiogroup"@.len() != "treegrid"@.len());
    }
    assert("region"@ != "treegrid"@) by {
        assert("region"@.len() != "treegrid"@.len());
    }
    assert("row"@ != "treegrid"@) by {
        assert("row"@.len() != "treegrid"@.len());
    }
    assert("rowgroup"@ != "treegrid"@) by {
        assert("rowgroup"@[0] != "treegrid"@[0]);
    }
    assert("rowheader"@ != "treegrid"@) by {
        assert("rowheader"@.len() != "treegrid"@.len());
    }
    assert("scrollbar"@ != "treegrid"@) by {
        assert("scrollbar"@.len() != "treegrid"@.len());
    }
    assert("search"@ != "treegrid"@) by {
        assert("search"@.len() != "treegrid"@.len());
    }
    assert("searchbox"@ != "treegrid"@) by {
        assert("searchbox"@.len() != "treegrid"@.len());
    }
    assert("separator"@ != "treegrid"@) by {
        assert("separator"@.len() != "treegrid"@.len());
    }
    assert("slider"@ != "treegrid"@) by {
        assert("slider"@.len() != "treegrid"@.len());
    }
    assert("spinbutton"@ != "treegrid"@) by {
        assert("spinbutton"@.len() != "treegrid"@.len());
    }
    assert("status"@ != "treegrid"@) by {
        assert("status"@.len() != "treegrid"@.len());
    }
    assert("switch"@ != "treegrid"@) by {
        assert("switch"@.len() != "treegrid"@.len());
    }
    assert("tab"@ != "treegrid"@) by {
        assert("tab"@.len() != "treegrid"@.len());
    }
    assert("table"@ != "treegrid"@) by {
        assert("table"@.len() != "treegrid"@.len());
    }
    assert("tablist"@ != "treegrid"@) by {
        assert("tablist"@.len() != "treegrid"@.len());
    }
    assert("tabpanel"@ != "treegrid"@) by {
        assert("tabpanel"@[1] != "treegrid"@[1]);
    }
    assert("term"@ != "treegrid"@) by {
        assert("term"@.len() != "treegrid"@.len());
    }
    assert("textbox"@ != "treegrid"@) by {
        assert("textbox"@.len() != "treegrid"@.len());
    }
    assert("timer"@ != "treegrid"@) by {
        assert("timer"@.len() != "treegrid"@.len());
    }
    assert("toolbar"@ != "treegrid"@) by {
        assert("toolbar"@.len() != "treegrid"@.len());
    }
    assert("tooltip"@ != "treegrid"@) by {
        assert("tooltip"@.len() != "treegrid"@.len());
    }
    assert("tree"@ != "treegrid"@) by {
        assert("tree"@.len() != "treegrid"@.len());
    }
    assert("treeitem"@ != "treegrid"@) by {
        assert("treeitem"@[4] != "treegrid"@[4]);
    }
    assert("command"@ != "treegrid"@) by {
        assert("command"@.len() != "treegrid"@.len());
    }
    assert("composite"@ != "treegrid"@) by {
        assert("composite"@.len() != "treegrid"@.len());
    }
    assert("input"@ != "treegrid"@) by {
        assert("input"@.len() != "treegrid"@.len());
    }
    assert("landmark"@ != "treegrid"@) by {
        assert("landmark"@[0] != "treegrid"@[0]);
    }
    assert("range"@ != "treegrid"@) by {
        assert("range"@.len() != "treegrid"@.len());
    }
    assert("roletype"@ != "treegrid"@) by {
        assert("roletype"@[0] != "treegrid"@[0]);
    }
    assert("section"@ != "treegrid"@) by {
        assert("section"@.len() != "treegrid"@.len());
    }
    assert("sectionhead"@ != "treegrid"@) by {
        assert("sectionhead"@.len() != "treegrid"@.len());
    }
    assert("select"@ != "treegrid"@) by {
        assert("select"@.len() != "treegrid"@.len());
    }
    assert("structure"@ != "treegrid"@) by {
        assert("structure"@.len() != "treegrid"@.len());
    }
    assert("widget"@ != "treegrid"@) by {
        assert("widget"@.len() != "treegrid"@.len());
    }
    assert("window"@ != "treegrid"@) by {
        assert("window"@.len() != "treegrid"@.len());
    }
}

proof fn role_name_unique_treeitem(b: Role)
    requires
        b.name_spec() == "treeitem"@,
    ensures
        b == Role::TreeItem,
{
    reveal_strlit("alert");
    reveal_strlit("alertdialog");
    reveal_strlit("application");
    reveal_strlit("article");
    reveal_strlit("banner");
    reveal_strlit("button");
    reveal_strlit("cell");
    reveal_strlit("checkbox");
    reveal_strlit("columnheader");
    reveal_strlit("combobox");
    reveal_strlit("complementary");
    reveal_strlit("contentinfo");
    reveal_strlit("definition");
    reveal_strlit("dialog");
    reveal_strlit("directory");
    reveal_strlit("document");
    reveal_strlit("feed");
    reveal_strlit("figure");
    reveal_strlit("form");
    reveal_strlit("grid");
    reveal_strlit("gridcell");
    reveal_strlit("group");
    reveal_strlit("heading");
    reveal_strlit("img");
    reveal_strlit("link");
    reveal_strlit("list");
    reveal_strlit("listbox");
    reveal_strlit("listitem");
    reveal_strlit("log");
    reveal_strlit("main");
    reveal_strlit("marquee");
    reveal_strlit("math");
    reveal_strlit("menu");
    reveal_strlit("menubar");
    reveal_strlit("menuitem");
    reveal_strlit("menuitemcheckbox");
    reveal_strlit("menuitemradio");
    reveal_strlit("meter");
    reveal_strlit("navigation");
    reveal_strlit("none");
    reveal_strlit("note");
    reveal_strlit("option");
    reveal_strlit("presentation");
    reveal_strlit("progressbar");
    reveal_strlit("radio");
    reveal_strlit("radiogroup");
    reveal_strlit("region");
    reveal_strlit("row");
    reveal_strlit("rowgroup");
    reveal_strlit("rowheader");
    reveal_strlit("scrollbar");
    reveal_strlit("search");
    reveal_strlit("searchbox");
    reveal_strlit("separator");
    reveal_strlit("slider");
    reveal_strlit("spinbutton");
    reveal_strlit("status");
    reveal_strlit("switch");
    reveal_strlit("tab");
    reveal_strlit("table");
    reveal_strlit("tablist");
    reveal_strlit("tabpanel");
    reveal_strlit("term");
    reveal_strlit("textbox");
    reveal_strlit("timer");
    reveal_strlit("toolbar");
    reveal_strlit("tooltip");
    reveal_strlit("tree");
    reveal_strlit("treegrid");
    reveal_strlit("treeitem");
    reveal_strlit("command");
    reveal_strlit("composite");
    reveal_strlit("input");
    reveal_strlit("landmark");
    reveal_strlit("range");
    reveal_strlit("roletype");
    reveal_strlit("section");
    reveal_strlit("sectionhead");
    reveal_strlit("select");
    reveal_strlit("structure");
    reveal_strlit("widget");
    reveal_strlit("window");
    assert("alert"@ != "treeitem"@) by {
        assert("alert"@.len() != "treeitem"@.len());
    }
    assert("alertdialog"@ != "treeitem"@) by {
        assert("alertdialog"@.len() != "treeitem"@.len());
    }
    assert("application"@ != "treeitem"@) by {
        assert("application"@.len() != "treeitem"@.len());
    }
    assert("article"@ != "treeitem"@) by {
        assert("article"@.len() != "treeitem"@.len());
    }
    assert("banner"@ != "treeitem"@) by {
        assert("banner"@.len() != "treeitem"@.len());
    }
    assert("button"@ != "treeitem"@) by {
        assert("button"@.len() != "treeitem"@.len());
    }
    assert("cell"@ != "treeitem"@) by {
        assert("cell"@.len() != "treeitem"@.len());
    }
    assert("checkbox"@ != "treeitem"@) by {
        assert("checkbox"@[0] != "treeitem"@[0]);
    }
    assert("columnheader"@ != "treeitem"@) by {
        assert("columnheader"@.len() != "treeitem"@.len());
    }
    assert("combobox"@ != "treeitem"@) by {
        assert("combobox"@[0] != "treeitem"@[0]);
    }
    assert("complementary"@ != "treeitem"@) by {
        assert("complementary"@.len() != "treeitem"@.len());
    }
    assert("contentinfo"@ != "treeitem"@) by {
        assert("contentinfo"@.len() != "treeitem"@.len());
    }
    assert("definition"@ != "treeitem"@) by {
        assert("definition"@.len() != "treeitem"@.len());
    }
    assert("dialog"@ != "treeitem"@) by {
        assert("dialog"@.len() != "treeitem"@.len());
    }
    assert("directory"@ != "treeitem"@) by {
        assert("directory"@.len() != "treeitem"@.len());
    }
    assert("document"@ != "treeitem"@) by {
        assert("document"@[0] != "treeitem"@[0]);
    }
    assert("feed"@ != "treeitem"@) by {
        assert("feed"@.len() != "treeitem"@.len());
    }
    assert("figure"@ != "treeitem"@) by {
        assert("figure"@.len() != "treeitem"@.len());
    }
    assert("form"@ != "treeitem"@) by {
        assert("form"@.len() != "treeitem"@.len());
    }
    assert("grid"@ != "treeitem"@) by {
        assert("grid"@.len() != "treeitem"@.len());
    }
    assert("gridcell"@ != "treeitem"@) by {
        assert("gridcell"@[0] != "treeitem"@[0]);
    }
    assert("group"@ != "treeitem"@) by {
        assert("group"@.len() != "treeitem"@.len());
    }
    assert("heading"@ != "treeitem"@) by {
        assert("heading"@.len() != "treeitem"@.len());
    }
    assert("img"@ != "treeitem"@) by {
        assert("img"@.len() != "treeitem"@.len());
    }
    assert("link"@ != "treeitem"@) by {
        assert("link"@.len() != "treeitem"@.len());
    }
    assert("list"@ != "treeitem"@) by {
        assert("list"@.len() != "treeitem"@.len());
    }
    assert("listbox"@ != "treeitem"@) by {
        assert("listbox"@.len() != "treeitem"@.len());
    }
    assert("listitem"@ != "treeitem"@) by {
        assert("listitem"@[0] != "treeitem"@[0]);
    }
    assert("log"@ != "treeitem"@) by {
        assert("log"@.len() != "treeitem"@.len());
    }
    assert("main"@ != "treeitem"@) by {
        assert("main"@.len() != "treeitem"@.len());
    }
    assert("marquee"@ != "treeitem"@) by {
        assert("marquee"@.len() != "treeitem"@.len());
    }
    assert("math"@ != "treeitem"@) by {
        assert("math"@.len() != "treeitem"@.len());
    }
    assert("menu"@ != "treeitem"@) by {
        assert("menu"@.len() != "treeitem"@.len());
    }
    assert("menubar"@ != "treeitem"@) by {
        assert("menubar"@.len() != "treeitem"@.len());
    }
    assert("menuitem"@ != "treeitem"@) by {
        assert("menuitem"@[0] != "treeitem"@[0]);
    }
    assert("menuitemcheckbox"@ != "treeitem"@) by {
        assert("menuitemcheckbox"@.len() != "treeitem"@.len());
    }
    assert("menuitemradio"@ != "treeitem"@) by {
        assert("menuitemradio"@.len() != "treeitem"@.len());
    }
    assert("meter"@ != "treeitem"@) by {
        assert("meter"@.len() != "treeitem"@.len());
    }
    assert("navigation"@ != "treeitem"@) by {
        assert("navigation"@.len() != "treeitem"@.len());
    }
    assert("none"@ != "treeitem"@) by {
        assert("none"@.len() != "treeitem"@.len());
    }
    assert("note"@ != "treeitem"@) by {
        assert("note"@.len() != "treeitem"@.len());
    }
    assert("option"@ != "treeitem"@) by {
        assert("option"@.len() != "treeitem"@.len());
    }
    assert("presentation"@ != "treeitem"@) by {
        assert("presentation"@.len() != "treeitem"@.len());
    }
    assert("progressbar"@ != "treeitem"@) by {
        assert("progressbar"@.len() != "treeitem"@.len());
    }
    assert("radio"@ != "treeitem"@) by {
        assert("radio"@.len() != "treeitem"@.len());
    }
    assert("radiogroup"@ != "treeitem"@) by {
        assert("radiogroup"@.len() != "treeitem"@.len());
    }
    assert("region"@ != "treeitem"@) by {
        assert("region"@.len() != "treeitem"@.len());
    }
    assert("row"@ != "treeitem"@) by {
        assert("row"@.len() != "treeitem"@.len());
    }
    assert("rowgroup"@ != "treeitem"@) by {
        assert("rowgroup"@[0] != "treeitem"@[0]);
    }
    assert("rowheader"@ != "treeitem"@) by {
        assert("rowheader"@.len() != "treeitem"@.len());
    }
    assert("scrollbar"@ != "treeitem"@) by {
        assert("scrollbar"@.len() != "treeitem"@.len());
    }
    assert("search"@ != "treeitem"@) by {
        assert("search"@.len() != "treeitem"@.len());
    }
    assert("searchbox"@ != "treeitem"@) by {
        assert("searchbox"@.len() != "treeitem"@.len());
    }
    assert("separator"@ != "treeitem"@) by {
        assert("separator"@.len() != "treeitem"@.len());
    }
    assert("slider"@ != "treeitem"@) by {
        assert("slider"@.len() != "treeitem"@.len());
    }
    assert("spinbutton"@ != "treeitem"@) by {
        assert("spinbutton"@.len() != "treeitem"@.len());
    }
    assert("status"@ != "treeitem"@) by {
        assert("status"@.len() != "treeitem"@.len());
    }
    assert("switch"@ != "treeitem"@) by {
        assert("switch"@.len() != "treeitem"@.len());
    }
    assert("tab"@ != "treeitem"@) by {
        assert("tab"@.len() != "treeitem"@.len());
    }
    assert("table"@ != "treeitem"@) by {
        assert("table"@.len() != "treeitem"@.len());
    }
    assert("tablist"@ != "treeitem"@) by {
        assert("tablist"@.len() != "treeitem"@.len());
    }
    assert("tabpanel"@ != "treeitem"@) by {
        assert("tabpanel"@[1] != "treeitem"@[1]);
    }
    assert("term"@ != "treeitem"@) by {
        assert("term"@.len() != "treeitem"@.len());
    }
    assert("textbox"@ != "treeitem"@) by {
        assert("textbox"@.len() != "treeitem"@.len());
    }
    assert("timer"@ != "treeitem"@) by {
        assert("timer"@.len() != "treeitem"@.len());
    }
    assert("toolbar"@ != "treeitem"@) by {
        assert("toolbar"@.len() != "treeitem"@.len());
    }
    assert("tooltip"@ != "treeitem"@) by {
        assert("tooltip"@.len() != "treeitem"@.len());
    }
    assert("tree"@ != "treeitem"@) by {
        assert("tree"@.len() != "treeitem"@.len());
    }
    assert("treegrid"@ != "treeitem"@) by {
        assert("treegrid"@[4] != "treeitem"@[4]);
    }
    assert("command"@ != "treeitem"@) by {
        assert("command"@.len() != "treeitem"@.len());
    }
    assert("composite"@ != "treeitem"@) by {
        assert("composite"@.len() != "treeitem"@.len());
    }
    assert("input"@ != "treeitem"@) by {
        assert("input"@.len() != "treeitem"@.len());
    }
    assert("landmark"@ != "treeitem"@) by {
        assert("landmark"@[0] != "treeitem"@[0]);
    }
    assert("range"@ != "treeitem"@) by {
        assert("range"@.len() != "treeitem"@.len());
    }
    assert("roletype"@ != "treeitem"@) by {
        assert("roletype"@[0] != "treeitem"@[0]);
    }
    assert("section"@ != "treeitem"@) by {
        assert("section"@.len() != "treeitem"@.len());
    }
    assert("sectionhead"@ != "treeitem"@) by {
        assert("sectionhead"@.len() != "treeitem"@.len());
    }
    assert("select"@ != "treeitem"@) by {
        assert("select"@.len() != "treeitem"@.len());
    }
    assert("structure"@ != "treeitem"@) by {
        assert("structure"@.len() != "treeitem"@.len());
    }
    assert("widget"@ != "treeitem"@) by {
        assert("widget"@.len() != "treeitem"@.len());
    }
    assert("window"@ != "treeitem"@) by {
        assert("window"@.len() != "treeitem"@.len());
    }
}

proof fn role_name_unique_command(b: Role)
    requires
        b.name_spec() == "command"@,
    ensures
        b == Role::Command,
{
    reveal_strlit("alert");
    reveal_strlit("alertdialog");
    reveal_strlit("application");
    reveal_strlit("article");
    reveal_strlit("banner");
    reveal_strlit("button");
    reveal_strlit("cell");
    reveal_strlit("checkbox");
    reveal_strlit("columnheader");
    reveal_strlit("combobox");
    reveal_strlit("complementary");
    reveal_strlit("contentinfo");
    reveal_strlit("definition");
    reveal_strlit("dialog");
    reveal_strlit("directory");
    reveal_strlit("document");
    reveal_strlit("feed");
    reveal_strlit("figure");
    reveal_strlit("form");
    reveal_strlit("grid");
    reveal_strlit("gridcell");
    reveal_strlit("group");
    reveal_strlit("heading");
    reveal_strlit("img");
    reveal_strlit("link");
    reveal_strlit("list");
    reveal_strlit("listbox");
    reveal_strlit("listitem");
    reveal_strlit("log");
    reveal_strlit("main");
    reveal_strlit("marquee");
    reveal_strlit("math");
    reveal_strlit("menu");
    reveal_strlit("menubar");
    reveal_strlit("menuitem");
    reveal_strlit("menuitemcheckbox");
    reveal_strlit("menuitemradio");
    reveal_strlit("meter");
    reveal_strlit("navigation");
    reveal_strlit("none");
    reveal_strlit("note");
    reveal_strlit("option");
    reveal_strlit("presentation");
    reveal_strlit("progressbar");
    reveal_strlit("radio");
    reveal_strlit("radiogroup");
    reveal_strlit("region");
    reveal_strlit("row");
    reveal_strlit("rowgroup");
    reveal_strlit("rowheader");
    reveal_strlit("scrollbar");
    reveal_strlit("search");
    reveal_strlit("searchbox");
    reveal_strlit("separator");
    reveal_strlit("slider");
    reveal_strlit("spinbutton");
    reveal_strlit("status");
    reveal_strlit("switch");
    reveal_strlit("tab");
    reveal_strlit("table");
    reveal_strlit("tablist");
    reveal_strlit("tabpanel");
    reveal_strlit("term");
    reveal_strlit("textbox");
    reveal_strlit("timer");
    reveal_strlit("toolbar");
    reveal_strlit("tooltip");
    reveal_strlit("tree");
    reveal_strlit("treegrid");
    reveal_strlit("treeitem");
    reveal_strlit("command");
    reveal_strlit("composite");
    reveal_strlit("input");
    reveal_strlit("landmark");
    reveal_strlit("range");
    reveal_strlit("roletype");
    reveal_strlit("section");
    reveal_strlit("sectionhead");
    reveal_strlit("select");
    reveal_strlit("structure");
    reveal_strlit("widget");
    reveal_strlit("window");
    assert("alert"@ != "command"@) by {
        assert("alert"@.len() != "command"@.len());
    }
    assert("alertdialog"@ != "command"@) by {
        assert("alertdialog"@.len() != "command"@.len());
    }
    assert("application"@ != "command"@) by {
        assert("application"@.len() != "command"@.len());
    }
    assert("article"@ != "command"@) by {
        assert("article"@[0] != "command"@[0]);
    }
    assert("banner"@ != "command"@) by {
        assert("banner"@.len() != "command"@.len());
    }
    assert("button"@ != "command"@) by {
        assert("button"@.len() != "command"@.len());
    }
    assert("cell"@ != "command"@) by {
        assert("cell"@.len() != "command"@.len());
    }
    assert("checkbox"@ != "command"@) by {
        assert("checkbox"@.len() != "command"@.len());
    }
    assert("columnheader"@ != "command"@) by {
        assert("columnheader"@.len() != "command"@.len());
    }
    assert("combobox"@ != "command"@) by {
        assert("combobox"@.len() != "command"@.len());
    }
    assert("complementary"@ != "command"@) by {
        assert("complementary"@.len() != "command"@.len());
    }
    assert("contentinfo"@ != "command"@) by {
        assert("contentinfo"@.len() != "command"@.len());
    }
    assert("definition"@ != "command"@) by {
        assert("definition"@.len() != "command"@.len());
    }
    assert("dialog"@ != "command"@) by {
        assert("dialog"@.len() != "command"@.len());
    }
    assert("directory"@ != "command"@) by {
        assert("directory"@.len() != "command"@.len());
    }
    assert("document"@ != "command"@) by {
        assert("document"@.len() != "command"@.len());
    }
    assert("feed"@ != "command"@) by {
        assert("feed"@.len() != "command"@.len());
    }
    assert("figure"@ != "command"@) by {
        assert("figure"@.len() != "command"@.len());
    }
    assert("form"@ != "command"@) by {
        assert("form"@.len() != "command"@.len());
    }
    assert("grid"@ != "command"@) by {
        assert("grid"@.len() != "command"@.len());
    }
    assert("gridcell"@ != "command"@) by {
        assert("gridcell"@.len() != "command"@.len());
    }
    assert("group"@ != "command"@) by {
        assert("group"@.len() != "command"@.len());
    }
    assert("heading"@ != "command"@) by {
        assert("heading"@[0] != "command"@[0]);
    }
    assert("img"@ != "command"@) by {
        assert("img"@.len() != "command"@.len());
    }
    assert("link"@ != "command"@) by {
        assert("link"@.len() != "command"@.len());
    }
    assert("list"@ != "command"@) by {
        assert("list"@.len() != "command"@.len());
    }
    assert("listbox"@ != "command"@) by {
        assert("listbox"@[0] != "command"@[0]);
    }
    assert("listitem"@ != "command"@) by {
        assert("listitem"@.len() != "command"@.len());
    }
    assert("log"@ != "command"@) by {
        assert("log"@.len() != "command"@.len());
    }
    assert("main"@ != "command"@) by {
        assert("main"@.len() != "command"@.len());
    }
    assert("marquee"@ != "command"@) by {
        assert("marquee"@[0] != "command"@[0]);
    }
    assert("math"@ != "command"@) by {
        assert("math"@.len() != "command"@.len());
    }
    assert("menu"@ != "command"@) by {
        assert("menu"@.len() != "command"@.len());
    }
    assert("menubar"@ != "command"@) by {
        assert("menubar"@[0] != "command"@[0]);
    }
    assert("menuitem"@ != "command"@) by {
        assert("menuitem"@.len() != "command"@.len());
    }
    assert("menuitemcheckbox"@ != "command"@) by {
        assert("menuitemcheckbox"@.len() != "command"@.len());
    }
    assert("menuitemradio"@ != "command"@) by {
        assert("menuitemradio"@.len() != "command"@.len());
    }
    assert("meter"@ != "command"@) by {
        assert("meter"@.len() != "command"@.len());
    }
    assert("navigation"@ != "command"@) by {
        assert("navigation"@.len() != "command"@.len());
    }
    assert("none"@ != "command"@) by {
        assert("none"@.len() != "command"@.len());
    }
    assert("note"@ != "command"@) by {
        assert("note"@.len() != "command"@.len());
    }
    assert("option"@ != "command"@) by {
        assert("option"@.len() != "command"@.len());
    }
    assert("presentation"@ != "command"@) by {
        assert("presentation"@.len() != "command"@.len());
    }
    assert("progressbar"@ != "command"@) by {
        assert("progressbar"@.len() != "command"@.len());
    }
    assert("radio"@ != "command"@) by {
        assert("radio"@.len() != "command"@.len());
    }
    assert("radiogroup"@ != "command"@) by {
        assert("radiogroup"@.len() != "command"@.len());
    }
    assert("region"@ != "command"@) by {
        assert("region"@.len() != "command"@.len());
    }
    assert("row"@ != "command"@) by {
        assert("row"@.len() != "command"@.len());
    }
    assert("rowgroup"@ != "command"@) by {
        assert("rowgroup"@.len() != "command"@.len());
    }
    assert("rowheader"@ != "command"@) by {
        assert("rowheader"@.len() != "command"@.len());
    }
    assert("scrollbar"@ != "command"@) by {
        assert("scrollbar"@.len() != "command"@.len());
    }
    assert("search"@ != "command"@) by {
        assert("search"@.len() != "command"@.len());
    }
    assert("searchbox"@ != "command"@) by {
        assert("searchbox"@.len() != "command"@.len());
    }
    assert("separator"@ != "command"@) by {
        assert("separator"@.len() != "command"@.len());
    }
    assert("slider"@ != "command"@) by {
        assert("slider"@.len() != "command"@.len());
    }
    assert("spinbutton"@ != "command"@) by {
        assert("spinbutton"@.len() != "command"@.len());
    }
    assert("status"@ != "command"@) by {
        assert("status"@.len() != "command"@.len());
    }
    assert("switch"@ != "command"@) by {
        assert("switch"@.len() != "command"@.len());
    }
    assert("tab"@ != "command"@) by {
        assert("tab"@.len() != "command"@.len());
    }
    assert("table"@ != "command"@) by {
        assert("table"@.len() != "command"@.len());
    }
    assert("tablist"@ != "command"@) by {
        assert("tablist"@[0] != "command"@[0]);
    }
    assert("tabpanel"@ != "command"@) by {
        assert("tabpanel"@.len() != "command"@.len());
    }
    assert("term"@ != "command"@) by {
        assert("term"@.len() != "command"@.len());
    }
    assert("textbox"@ != "command"@) by {
        assert("textbox"@[0] != "command"@[0]);
    }
    assert("timer"@ != "command"@) by {
        assert("timer"@.len() != "command"@.len());
    }
    assert("toolbar"@ != "command"@) by {
        assert("toolbar"@[0] != "command"@[0]);
    }
    assert("tooltip"@ != "command"@) by {
        assert("tooltip"@[0] != "command"@[0]);
    }
    assert("tree"@ != "command"@) by {
        assert("tree"@.len() != "command"@.len());
    }
    assert("treegrid"@ != "command"@) by {
        assert("treegrid"@.len() != "command"@.len());
    }
    assert("treeitem"@ != "command"@) by {
        assert("treeitem"@.len() != "command"@.len());
    }
    assert("composite"@ != "command"@) by {
        assert("composite"@.len() != "command"@.len());
    }
    assert("input"@ != "command"@) by {
        assert("input"@.len() != "command"@.len());
    }
    assert("landmark"@ != "command"@) by {
        assert("landmark"@.len() != "command"@.len());
    }
    assert("range"@ != "command"@) by {
        assert("range"@.len() != "command"@.len());
    }
    assert("roletype"@ != "command"@) by {
        assert("roletype"@.len() != "command"@.len());
    }
    assert("section"@ != "command"@) by {
        assert("section"@[0] != "command"@[0]);
    }
    assert("sectionhead"@ != "command"@) by {
        assert("sectionhead"@.len() != "command"@.len());
    }
    assert("select"@ != "command"@) by {
        assert("select"@.len() != "command"@.len());
    }
    assert("structure"@ != "command"@) by {
        assert("structure"@.len() != "command"@.len());
    }
    assert("widget"@ != "command"@) by {
        assert("widget"@.len() != "command"@.len());
    }
    assert("window"@ != "command"@) by {
        assert("window"@.len() != "command"@.len());
    }
}

proof fn role_name_unique_composite(b: Role)
    requires
        b.name_spec() == "composite"@,
    ensures
        b == Role::Composite,
{
    reveal_strlit("alert");
    reveal_strlit("alertdialog");
    reveal_strlit("application");
    reveal_strlit("article");
    reveal_strlit("banner");
    reveal_strlit("button");
    reveal_strlit("cell");
    reveal_strlit("checkbox");
    reveal_strlit("columnheader");
    reveal_strlit("combobox");
    reveal_strlit("complementary");
    reveal_strlit("contentinfo");
    reveal_strlit("definition");
    reveal_strlit("dialog");
    reveal_strlit("directory");
    reveal_strlit("document");
    reveal_strlit("feed");
    reveal_strlit("figure");
    reveal_strlit("form");
    reveal_strlit("grid");
    reveal_strlit("gridcell");
    reveal_strlit("group");
    reveal_strlit("heading");
    reveal_strlit("img");
    reveal_strlit("link");
    reveal_strlit("list");
    reveal_strlit("listbox");
    reveal_strlit("listitem");
    reveal_strlit("log");
    reveal_strlit("main");
    reveal_strlit("marquee");
    reveal_strlit("math");
    reveal_strlit("menu");
    reveal_strlit("menubar");
    reveal_strlit("menuitem");
    reveal_strlit("menuitemcheckbox");
    reveal_strlit("menuitemradio");
    reveal_strlit("meter");
    reveal_strlit("navigation");
    reveal_strlit("none");
    reveal_strlit("note");
    reveal_strlit("option");
    reveal_strlit("presentation");
    reveal_strlit("progressbar");
    reveal_strlit("radio");
    reveal_strlit("radiogroup");
    reveal_strlit("region");
    reveal_strlit("row");
    reveal_strlit("rowgroup");
    reveal_strlit("rowheader");
    reveal_strlit("scrollbar");
    reveal_strlit("search");
    reveal_strlit("searchbox");
    reveal_strlit("separator");
    reveal_strlit("slider");
    reveal_strlit("spinbutton");
    reveal_strlit("status");
    reveal_strlit("switch");
    reveal_strlit("tab");
    reveal_strlit("table");
    reveal_strlit("tablist");
    reveal_strlit("tabpanel");
    reveal_strlit("term");
    reveal_strlit("textbox");
    reveal_strlit("timer");
    reveal_strlit("toolbar");
    reveal_strlit("tooltip");
    reveal_strlit("tree");
    reveal_strlit("treegrid");
    reveal_strlit("treeitem");
    reveal_strlit("command");
    reveal_strlit("composite");
    reveal_strlit("input");
    reveal_strlit("landmark");
    reveal_strlit("range");
    reveal_strlit("roletype");
    reveal_strlit("section");
    reveal_strlit("sectionhead");
    reveal_strlit("select");
    reveal_strlit("structure");
    reveal_strlit("widget");
    reveal_strlit("window");
    assert("alert"@ != "composite"@) by {
        assert("alert"@.len() != "composite"@.len());
    }
    assert("alertdialog"@ != "composite"@) by {
        assert("alertdialog"@.len() != "composite"@.len());
    }
    assert("application"@ != "composite"@) by {
        assert("application"@.len() != "composite"@.len());
    }
    assert("article"@ != "composite"@) by {
        assert("article"@.len() != "composite"@.len());
    }
    assert("banner"@ != "composite"@) by {
        assert("banner"@.len() != "composite"@.len());
    }
    assert("button"@ != "composite"@) by {
        assert("button"@.len() != "composite"@.len());
    }
    assert("cell"@ != "composite"@) by {
        assert("cell"@.len() != "composite"@.len());
    }
    assert("checkbox"@ != "composite"@) by {
        assert("checkbox"@.len() != "composite"@.len());
    }
    assert("columnheader"@ != "composite"@) by {
        assert("columnheader"@.len() != "composite"@.len());
    }
    assert("combobox"@ != "composite"@) by {
        assert("combobox"@.len() != "composite"@.len());
    }
    assert("complementary"@ != "composite"@) by {
        assert("complementary"@.len() != "composite"@.len());
    }
    assert("contentinfo"@ != "composite"@) by {
        assert("contentinfo"@.len() != "composite"@.len());
    }
    assert("definition"@ != "composite"@) by {
        assert("definition"@.len() != "composite"@.len());
    }
    assert("dialog"@ != "composite"@) by {
        assert("dialog"@.len() != "composite"@.len());
    }
    assert("directory"@ != "composite"@) by {
        assert("directory"@[0] != "composite"@[0]);
    }
    assert("document"@ != "composite"@) by {
        assert("document"@.len() != "composite"@.len());
    }
    assert("feed"@ != "composite"@) by {
        assert("feed"@.len() != "composite"@.len());
    }
    assert("figure"@ != "composite"@) by {
        assert("figure"@.len() != "composite"@.len());
    }
    assert("form"@ != "composite"@) by {
        assert("form"@.len() != "composite"@.len());
    }
    assert("grid"@ != "composite"@) by {
        assert("grid"@.len() != "composite"@.len());
    }
    assert("gridcell"@ != "composite"@) by {
        assert("gridcell"@.len() != "composite"@.len());
    }
    assert("group"@ != "composite"@) by {
        assert("group"@.len() != "composite"@.len());
    }
    assert("heading"@ != "composite"@) by {
        assert("heading"@.len() != "composite"@.len());
    }
    assert("img"@ != "composite"@) by {
        assert("img"@.len() != "composite"@.len());
    }
    assert("link"@ != "composite"@) by {
        assert("link"@.len() != "composite"@.len());
    }
    assert("list"@ != "composite"@) by {
        assert("list"@.len() != "composite"@.len());
    }
    assert("listbox"@ != "composite"@) by {
        assert("listbox"@.len() != "composite"@.len());
    }
    assert("listitem"@ != "composite"@) by {
        assert("listitem"@.len() != "composite"@.len());
    }
    assert("log"@ != "composite"@) by {
        assert("log"@.len() != "composite"@.len());
    }
    assert("main"@ != "composite"@) by {
        assert("main"@.len() != "composite"@.len());
    }
    assert("marquee"@ != "composite"@) by {
        assert("marquee"@.len() != "composite"@.len());
    }
    assert("math"@ != "composite"@) by {
        assert("math"@.len() != "composite"@.len());
    }
    assert("menu"@ != "composite"@) by {
        assert("menu"@.len() != "composite"@.len());
    }
    assert("menubar"@ != "composite"@) by {
        assert("menubar"@.len() != "composite"@.len());
    }
    assert("menuitem"@ != "composite"@) by {
        assert("menuitem"@.len() != "composite"@.len());
    }
    assert("menuitemcheckbox"@ != "composite"@) by {
        assert("menuitemcheckbox"@.len() != "composite"@.len());
    }
    assert("menuitemradio"@ != "composite"@) by {
        assert("menuitemradio"@.len() != "composite"@.len());
    }
    assert("meter"@ != "composite"@) by {
        assert("meter"@.len() != "composite"@.len());
    }
    assert("navigation"@ != "composite"@) by {
        assert("navigation"@.len() != "composite"@.len());
    }
    assert("none"@ != "composite"@) by {
        assert("none"@.len() != "composite"@.len());
    }
    assert("note"@ != "composite"@) by {
        assert("note"@.len() != "composite"@.len());
    }
    assert("option"@ != "composite"@) by {
        assert("option"@.len() != "composite"@.len());
    }
    assert("presentation"@ != "composite"@) by {
        assert("presentation"@.len() != "composite"@.len());
    }
    assert("progressbar"@ != "composite"@) by {
        assert("progressbar"@.len() != "composite"@.len());
    }
    assert("radio"@ != "composite"@) by {
        assert("radio"@.len() != "composite"@.len());
    }
    assert("radiogroup"@ != "composite"@) by {
        assert("radiogroup"@.len() != "composite"@.len());
    }
    assert("region"@ != "composite"@) by {
        assert("region"@.len() != "composite"@.len());
    }
    assert("row"@ != "composite"@) by {
        assert("row"@.len() != "composite"@.len());
    }
    assert("rowgroup"@ != "composite"@) by {
        assert("rowgroup"@.len() != "composite"@.len());
    }
    assert("rowheader"@ != "composite"@) by {
        assert("rowheader"@[0] != "composite"@[0]);
    }
    assert("scrollbar"@ != "composite"@) by {
        assert("scrollbar"@[0] != "composite"@[0]);
    }
    assert("search"@ != "composite"@) by {
        assert("search"@.len() != "composite"@.len());
    }
    assert("searchbox"@ != "composite"@) by {
        assert("searchbox"@[0] != "composite"@[0]);
    }
    assert("separator"@ != "composite"@) by {
        assert("separator"@[0] != "composite"@[0]);
    }
    assert("slider"@ != "composite"@) by {
        assert("slider"@.len() != "composite"@.len());
    }
    assert("spinbutton"@ != "composite"@) by {
        assert("spinbutton"@.len() != "composite"@.len());
    }
    assert("status"@ != "composite"@) by {
        assert("status"@.len() != "composite"@.len());
    }
    assert("switch"@ != "composite"@) by {
        assert("switch"@.len() != "composite"@.len());
    }
    assert("tab"@ != "composite"@) by {
        assert("tab"@.len() != "composite"@.len());
    }
    assert("table"@ != "composite"@) by {
        assert("table"@.len() != "composite"@.len());
    }
    assert("tablist"@ != "composite"@) by {
        assert("tablist"@.len() != "composite"@.len());
    }
    assert("tabpanel"@ != "composite"@) by {
        assert("tabpanel"@.len() != "composite"@.len());
    }
    assert("term"@ != "composite"@) by {
        assert("term"@.len() != "composite"@.len());
    }
    assert("textbox"@ != "composite"@) by {
        assert("textbox"@.len() != "composite"@.len());
    }
    assert("timer"@ != "composite"@) by {
        assert("timer"@.len() != "composite"@.len());
    }
    assert("toolbar"@ != "composite"@) by {
        assert("toolbar"@.len() != "composite"@.len());
    }
    assert("tooltip"@ != "composite"@) by {
        assert("tooltip"@.len() != "composite"@.len());
    }
    assert("tree"@ != "composite"@) by {
        assert("tree"@.len() != "composite"@.len());
    }
    assert("treegrid"@ != "composite"@) by {
        assert("treegrid"@.len() != "composite"@.len());
    }
    assert("treeitem"@ != "composite"@) by {
        assert("treeitem"@.len() != "composite"@.len());
    }
    assert("command"@ != "composite"@) by {
        assert("command"@.len() != "composite"@.len());
    }
    assert("input"@ != "composite"@) by {
        assert("input"@.len() != "composite"@.len());
    }
    assert("landmark"@ != "composite"@) by {
        assert("landmark"@.len() != "composite"@.len());
    }
    assert("range"@ != "composite"@) by {
        assert("range"@.len() != "composite"@.len());
    }
    assert("roletype"@ != "composite"@) by {
        assert("roletype"@.len() != "composite"@.len());
    }
    assert("section"@ != "composite"@) by {
        assert("section"@.len() != "composite"@.len());
    }
    assert("sectionhead"@ != "composite"@) by {
        assert("sectionhead"@.len() != "composite"@.len());
    }
    assert("select"@ != "composite"@) by {
        assert("select"@.len() != "composite"@.len());
    }
    assert("structure"@ != "composite"@) by {
        assert("structure"@[0] != "composite"@[0]);
    }
    assert("widget"@ != "composite"@) by {
        assert("widget"@.len() != "composite"@.len());
    }
    assert("window"@ != "composite"@) by {
        assert("window"@.len() != "composite"@.len());
    }
}

proof fn role_name_unique_input(b: Role)
    requires
        b.name_spec() == "input"@,
    ensures
        b == Role::Input,
{
    reveal_strlit("alert");
    reveal_strlit("alertdialog");
    reveal_strlit("application");
    reveal_strlit("article");
    reveal_strlit("banner");
    reveal_strlit("button");
    reveal_strlit("cell");
    reveal_strlit("checkbox");
    reveal_strlit("columnheader");
    reveal_strlit("combobox");
    reveal_strlit("complementary");
    reveal_strlit("contentinfo");
    reveal_strlit("definition");
    reveal_strlit("dialog");
    reveal_strlit("directory");
    reveal_strlit("document");
    reveal_strlit("feed");
    reveal_strlit("figure");
    reveal_strlit("form");
    reveal_strlit("grid");
    reveal_strlit("gridcell");
    reveal_strlit("group");
    reveal_strlit("heading");
    reveal_strlit("img");
    reveal_strlit("link");
    reveal_strlit("list");
    reveal_strlit("listbox");
    reveal_strlit("listitem");
    reveal_strlit("log");
    reveal_strlit("main");
    reveal_strlit("marquee");
    reveal_strlit("math");
    reveal_strlit("menu");
    reveal_strlit("menubar");
    reveal_strlit("menuitem");
    reveal_strlit("menuitemcheckbox");
    reveal_strlit("menuitemradio");
    reveal_strlit("meter");
    reveal_strlit("navigation");
    reveal_strlit("none");
    reveal_strlit("note");
    reveal_strlit("option");
    reveal_strlit("presentation");
    reveal_strlit("progressbar");
    reveal_strlit("radio");
    reveal_strlit("radiogroup");
    reveal_strlit("region");
    reveal_strlit("row");
    reveal_strlit("rowgroup");
    reveal_strlit("rowheader");
    reveal_strlit("scrollbar");
    reveal_strlit("search");
    reveal_strlit("searchbox");
    reveal_strlit("separator");
    reveal_strlit("slider");
    reveal_strlit("spinbutton");
    reveal_strlit("status");
    reveal_strlit("switch");
    reveal_strlit("tab");
    reveal_strlit("table");
    reveal_strlit("tablist");
    reveal_strlit("tabpanel");
    reveal_strlit("term");
    reveal_strlit("textbox");
    reveal_strlit("timer");
    reveal_strlit("toolbar");
    reveal_strlit("tooltip");
    reveal_strlit("tree");
    reveal_strlit("treegrid");
    reveal_strlit("treeitem");
    reveal_strlit("command");
    reveal_strlit("composite");
    reveal_strlit("input");
    reveal_strlit("landmark");
    reveal_strlit("range");
    reveal_strlit("roletype");
    reveal_strlit("section");
    reveal_strlit("sectionhead");
    reveal_strlit("select");
    reveal_strlit("structure");
    reveal_strlit("widget");
    reveal_strlit("window");
    assert("alert"@ != "input"@) by {
        assert("alert"@[0] != "input"@[0]);
    }
    assert("alertdialog"@ != "input"@) by {
        assert("alertdialog"@.len() != "input"@.len());
    }
    assert("application"@ != "input"@) by {
        assert("application"@.len() != "input"@.len());
    }
    assert("article"@ != "input"@) by {
        assert("article"@.len() != "input"@.len());
    }
    assert("banner"@ != "input"@) by {
        assert("banner"@.len() != "input"@.len());
    }
    assert("button"@ != "input"@) by {
        assert("button"@.len() != "input"@.len());
    }
    assert("cell"@ != "input"@) by {
        assert("cell"@.len() != "input"@.len());
    }
    assert("checkbox"@ != "input"@) by {
        assert("checkbox"@.len() != "input"@.len());
    }
    assert("columnheader"@ != "input"@) by {
        assert("columnheader"@.len() != "input"@.len());
    }
    assert("combobox"@ != "input"@) by {
        assert("combobox"@.len() != "input"@.len());
    }
    assert("complementary"@ != "input"@) by {
        assert("complementary"@.len() != "input"@.len());
    }
    assert("contentinfo"@ != "input"@) by {
        assert("contentinfo"@.len() != "input"@.len());
    }
    assert("definition"@ != "input"@) by {
        assert("definition"@.len() != "input"@.len());
    }
    assert("dialog"@ != "input"@) by {
        assert("dialog"@.len() != "input"@.len());
    }
    assert("directory"@ != "input"@) by {
        assert("directory"@.len() != "input"@.len());
    }
    assert("document"@ != "input"@) by {
        assert("document"@.len() != "input"@.len());
    }
    assert("feed"@ != "input"@) by {
        assert("feed"@.len() != "input"@.len());
    }
    assert("figure"@ != "input"@) by {
        assert("figure"@.len() != "input"@.len());
    }
    assert("form"@ != "input"@) by {
        assert("form"@.len() != "input"@.len());
    }
    assert("grid"@ != "input"@) by {
        assert("grid"@.len() != "input"@.len());
    }
    assert("gridcell"@ != "input"@) by {
        assert("gridcell"@.len() != "input"@.len());
    }
    assert("group"@ != "input"@) by {
        assert("group"@[0] != "input"@[0]);
    }
    assert("heading"@ != "input"@) by {
        assert("heading"@.len() != "input"@.len());
    }
    assert("img"@ != "input"@) by {
        assert("img"@.len() != "input"@.len());
    }
    assert("link"@ != "input"@) by {
        assert("link"@.len() != "input"@.len());
    }
    assert("list"@ != "input"@) by {
        assert("list"@.len() != "input"@.len());
    }
    assert("listbox"@ != "input"@) by {
        assert("listbox"@.len() != "input"@.len());
    }
    assert("listitem"@ != "input"@) by {
        assert("listitem"@.len() != "input"@.len());
    }
    assert("log"@ != "input"@) by {
        assert("log"@.len() != "input"@.len());
    }
    assert("main"@ != "input"@) by {
        assert("main"@.len() != "input"@.len());
    }
    assert("marquee"@ != "input"@) by {
        assert("marquee"@.len() != "input"@.len());
    }
    assert("math"@ != "input"@) by {
        assert("math"@.len() != "input"@.len());
    }
    assert("menu"@ != "input"@) by {
        assert("menu"@.len() != "input"@.len());
    }
    assert("menubar"@ != "input"@) by {
        assert("menubar"@.len() != "input"@.len());
    }
    assert("menuitem"@ != "input"@) by {
        assert("menuitem"@.len() != "input"@.len());
    }
    assert("menuitemcheckbox"@ != "input"@) by {
        assert("menuitemcheckbox"@.len() != "input"@.len());
    }
    assert("menuitemradio"@ != "input"@) by {
        assert("menuitemradio"@.len() != "input"@.len());
    }
    assert("meter"@ != "input"@) by {
        assert("meter"@[0] != "input"@[0]);
    }
    assert("navigation"@ != "input"@) by {
        assert("navigation"@.len() != "input"@.len());
    }
    assert("none"@ != "input"@) by {
        assert("none"@.len() != "input"@.len());
    }
    assert("note"@ != "input"@) by {
        assert("note"@.len() != "input"@.len());
    }
    assert("option"@ != "input"@) by {
        assert("option"@.len() != "input"@.len());
    }
    assert("presentation"@ != "input"@) by {
        assert("presentation"@.len() != "input"@.len());
    }
    assert("progressbar"@ != "input"@) by {
        assert("progressbar"@.len() != "input"@.len());
    }
    assert("radio"@ != "input"@) by {
        assert("radio"@[0] != "input"@[0]);
    }
    assert("radiogroup"@ != "input"@) by {
        assert("radiogroup"@.len() != "input"@.len());
    }
    assert("region"@ != "input"@) by {
        assert("region"@.len() != "input"@.len());
    }
    assert("row"@ != "input"@) by {
        assert("row"@.len() != "input"@.len());
    }
    assert("rowgroup"@ != "input"@) by {
        assert("rowgroup"@.len() != "input"@.len());
    }
    assert("rowheader"@ != "input"@) by {
        assert("rowheader"@.len() != "input"@.len());
    }
    assert("scrollbar"@ != "input"@) by {
        assert("scrollbar"@.len() != "input"@.len());
    }
    assert("search"@ != "input"@) by {
        assert("search"@.len() != "input"@.len());
    }
    assert("searchbox"@ != "input"@) by {
        assert("searchbox"@.len() != "input"@.len());
    }
    assert("separator"@ != "input"@) by {
        assert("separator"@.len() != "input"@.len());
    }
    assert("slider"@ != "input"@) by {
        assert("slider"@.len() != "input"@.len());
    }
    assert("spinbutton"@ != "input"@) by {
        assert("spinbutton"@.len() != "input"@.len());
    }
    assert("status"@ != "input"@) by {
        assert("status"@.len() != "input"@.len());
    }
    assert("switch"@ != "input"@) by {
        assert("switch"@.len() != "input"@.len());
    }
    assert("tab"@ != "input"@) by {
        assert("tab"@.len() != "input"@.len());
    }
    assert("table"@ != "input"@) by {
        assert("table"@[0] != "input"@[0]);
    }
    assert("tablist"@ != "input"@) by {
        assert("tablist"@.len() != "input"@.len());
    }
    assert("tabpanel"@ != "input"@) by {
        assert("tabpanel"@.len() != "input"@.len());
    }
    assert("term"@ != "input"@) by {
        assert("term"@.len() != "input"@.len());
    }
    assert("textbox"@ != "input"@) by {
        assert("textbox"@.len() != "input"@.len());
    }
    assert("timer"@ != "input"@) by {
        assert("timer"@[0] != "input"@[0]);
    }
    assert("toolbar"@ != "input"@) by {
        assert("toolbar"@.len() != "input"@.len());
    }
    assert("tooltip"@ != "input"@) by {
        assert("tooltip"@.len() != "input"@.len());
    }
    assert("tree"@ != "input"@) by {
        assert("tree"@.len() != "input"@.len());
    }
    assert("treegrid"@ != "input"@) by {
        assert("treegrid"@.len() != "input"@.len());
    }
    assert("treeitem"@ != "input"@) by {
        assert("treeitem"@.len() != "input"@.len());
    }
    assert("command"@ != "input"@) by {
        assert("command"@.len() != "input"@.len());
    }
    assert("composite"@ != "input"@) by {
        assert("composite"@.len() != "input"@.len());
    }
    assert("landmark"@ != "input"@) by {
        assert("landmark"@.len() != "input"@.len());
    }
    assert("range"@ != "input"@) by {
        assert("range"@[0] != "input"@[0]);
    }
    assert("roletype"@ != "input"@) by {
        assert("roletype"@.len() != "input"@.len());
    }
    assert("section"@ != "input"@) by {
        assert("section"@.len() != "input"@.len());
    }
    assert("sectionhead"@ != "input"@) by {
        assert("sectionhead"@.len() != "input"@.len());
    }
    assert("select"@ != "input"@) by {
        assert("select"@.len() != "input"@.len());
    }
    assert("structure"@ != "input"@) by {
        assert("structure"@.len() != "input"@.len());
    }
    assert("widget"@ != "input"@) by {
        assert("widget"@.len() != "input"@.len());
    }
    assert("window"@ != "input"@) by {
        assert("window"@.len() != "input"@.len());
    }
}

proof fn role_name_unique_landmark(b: Role)
    requires
        b.name_spec() == "landmark"@,
    ensures
        b == Role::Landmark,
{
    reveal_strlit("alert");
    reveal_strlit("alertdialog");
    reveal_strlit("application");
    reveal_strlit("article");
    reveal_strlit("banner");
    reveal_strlit("button");
    reveal_strlit("cell");
    reveal_strlit("checkbox");
    reveal_strlit("columnheader");
    reveal_strlit("combobox");
    reveal_strlit("complementary");
    reveal_strlit("contentinfo");
    reveal_strlit("definition");
    reveal_strlit("dialog");
    reveal_strlit("directory");
    reveal_strlit("document");
    reveal_strlit("feed");
    reveal_strlit("figure");
    reveal_strlit("form");
    reveal_strlit("grid");
    reveal_strlit("gridcell");
    reveal_strlit("group");
    reveal_strlit("heading");
    reveal_strlit("img");
    reveal_strlit("link");
    reveal_strlit("list");
    reveal_strlit("listbox");
    reveal_strlit("listitem");
    reveal_strlit("log");
    reveal_strlit("main");
    reveal_strlit("marquee");
    reveal_strlit("math");
    reveal_strlit("menu");
    reveal_strlit("menubar");
    reveal_strlit("menuitem");
    reveal_strlit("menuitemcheckbox");
    reveal_strlit("menuitemradio");
    reveal_strlit("meter");
    reveal_strlit("navigation");
    reveal_strlit("none");
    reveal_strlit("note");
    reveal_strlit("option");
    reveal_strlit("presentation");
    reveal_strlit("progressbar");
    reveal_strlit("radio");
    reveal_strlit("radiogroup");
    reveal_strlit("region");
    reveal_strlit("row");
    reveal_strlit("rowgroup");
    reveal_strlit("rowheader");
    reveal_strlit("scrollbar");
    reveal_strlit("search");
    reveal_strlit("searchbox");
    reveal_strlit("separator");
    reveal_strlit("slider");
    reveal_strlit("spinbutton");
    reveal_strlit("status");
    reveal_strlit("switch");
    reveal_strlit("tab");
    reveal_strlit("table");
    reveal_strlit("tablist");
    reveal_strlit("tabpanel");
    reveal_strlit("term");
    reveal_strlit("textbox");
    reveal_strlit("timer");
    reveal_strlit("toolbar");
    reveal_strlit("tooltip");
    reveal_strlit("tree");
    reveal_strlit("treegrid");
    reveal_strlit("treeitem");
    reveal_strlit("command");
    reveal_strlit("composite");
    reveal_strlit("input");
    reveal_strlit("landmark");
    reveal_strlit("range");
    reveal_strlit("roletype");
    reveal_strlit("section");
    reveal_strlit("sectionhead");
    reveal_strlit("select");
    reveal_strlit("structure");
    reveal_strlit("widget");
    reveal_strlit("window");
    assert("alert"@ != "landmark"@) by {
        assert("alert"@.len() != "landmark"@.len());
    }
    assert("alertdialog"@ != "landmark"@) by {
        assert("alertdialog"@.len() != "landmark"@.len());
    }
    assert("application"@ != "landmark"@) by {
        assert("application"@.len() != "landmark"@.len());
    }
    assert("article"@ != "landmark"@) by {
        assert("article"@.len() != "landmark"@.len());
    }
    assert("banner"@ != "landmark"@) by {
        assert("banner"@.len() != "landmark"@.len());
    }
    assert("button"@ != "landmark"@) by {
        assert("button"@.len() != "landmark"@.len());
    }
    assert("cell"@ != "landmark"@) by {
        assert("cell"@.len() != "landmark"@.len());
    }
    assert("checkbox"@ != "landmark"@) by {
        assert("checkbox"@[0] != "landmark"@[0]);
    }
    assert("columnheader"@ != "landmark"@) by {
        assert("columnheader"@.len() != "landmark"@.len());
    }
    assert("combobox"@ != "landmark"@) by {
        assert("combobox"@[0] != "landmark"@[0]);
    }
    assert("complementary"@ != "landmark"@) by {
        assert("complementary"@.len() != "landmark"@.len());
    }
    assert("contentinfo"@ != "landmark"@) by {
        assert("contentinfo"@.len() != "landmark"@.len());
    }
    assert("definition"@ != "landmark"@) by {
        assert("definition"@.len() != "landmark"@.len());
    }
    assert("dialog"@ != "landmark"@) by {
        assert("dialog"@.len() != "landmark"@.len());
    }
    assert("directory"@ != "landmark"@) by {
        assert("directory"@.len() != "landmark"@.len());
    }
    assert("document"@ != "landmark"@) by {
        assert("document"@[0] != "landmark"@[0]);
    }
    assert("feed"@ != "landmark"@) by {
        assert("feed"@.len() != "landmark"@.len());
    }
    assert("figure"@ != "landmark"@) by {
        assert("figure"@.len() != "landmark"@.len());
    }
    assert("form"@ != "landmark"@) by {
        assert("form"@.len() != "landmark"@.len());
    }
    assert("grid"@ != "landmark"@) by {
        assert("grid"@.len() != "landmark"@.len());
    }
    assert("gridcell"@ != "landmark"@) by {
        assert("gridcell"@[0] != "landmark"@[0]);
    }
    assert("group"@ != "landmark"@) by {
        assert("group"@.len() != "landmark"@.len());
    }
    assert("heading"@ != "landmark"@) by {
        assert("heading"@.len() != "landmark"@.len());
    }
    assert("img"@ != "landmark"@) by {
        assert("img"@.len() != "landmark"@.len());
    }
    assert("link"@ != "landmark"@) by {
        assert("link"@.len() != "landmark"@.len());
    }
    assert("list"@ != "landmark"@) by {
        assert("list"@.len() != "landmark"@.len());
    }
    assert("listbox"@ != "landmark"@) by {
        assert("listbox"@.len() != "landmark"@.len());
    }
    assert("listitem"@ != "landmark"@) by {
        assert("listitem"@[1] != "landmark"@[1]);
    }
    assert("log"@ != "landmark"@) by {
        assert("log"@.len() != "landmark"@.len());
    }
    assert("main"@ != "landmark"@) by {
        assert("main"@.len() != "landmark"@.len());
    }
    assert("marquee"@ != "landmark"@) by {
        assert("marquee"@.len() != "landmark"@.len());
    }
    assert("math"@ != "landmark"@) by {
        assert("math"@.len() != "landmark"@.len());
    }
    assert("menu"@ != "landmark"@) by {
        assert("menu"@.len() != "landmark"@.len());
    }
    assert("menubar"@ != "landmark"@) by {
        assert("menubar"@.len() != "landmark"@.len());
    }
    assert("menuitem"@ != "landmark"@) by {
        assert("menuitem"@[0] != "landmark"@[0]);
    }
    assert("menuitemcheckbox"@ != "landmark"@) by {
        assert("menuitemcheckbox"@.len() != "landmark"@.len());
    }
    assert("menuitemradio"@ != "landmark"@) by {
        assert("menuitemradio"@.len() != "landmark"@.len());
    }
    assert("meter"@ != "landmark"@) by {
        assert("meter"@.len() != "landmark"@.len());
    }
    assert("navigation"@ != "landmark"@) by {
        assert("navigation"@.len() != "landmark"@.len());
    }
    assert("none"@ != "landmark"@) by {
        assert("none"@.len() != "landmark"@.len());
    }
    assert("note"@ != "landmark"@) by {
        assert("note"@.len() != "landmark"@.len());
    }
    assert("option"@ != "landmark"@) by {
        assert("option"@.len() != "landmark"@.len());
    }
    assert("presentation"@ != "landmark"@) by {
        assert("presentation"@.len() != "landmark"@.len());
    }
    assert("progressbar"@ != "landmark"@) by {
        assert("progressbar"@.len() != "landmark"@.len());
    }
    assert("radio"@ != "landmark"@) by {
        assert("radio"@.len() != "landmark"@.len());
    }
    assert("radiogroup"@ != "landmark"@) by {
        assert("radiogroup"@.len() != "landmark"@.len());
    }
    assert("region"@ != "landmark"@) by {
        assert("region"@.len() != "landmark"@.len());
    }
    assert("row"@ != "landmark"@) by {
        assert("row"@.len() != "landmark"@.len());
    }
    assert("rowgroup"@ != "landmark"@) by {
        assert("rowgroup"@[0] != "landmark"@[0]);
    }
    assert("rowheader"@ != "landmark"@) by {
        assert("rowheader"@.len() != "landmark"@.len());
    }
    assert("scrollbar"@ != "landmark"@) by {
        assert("scrollbar"@.len() != "landmark"@.len());
    }
    assert("search"@ != "landmark"@) by {
        assert("search"@.len() != "landmark"@.len());
    }
    assert("searchbox"@ != "landmark"@) by {
        assert("searchbox"@.len() != "landmark"@.len());
    }
    assert("separator"@ != "landmark"@) by {
        assert("separator"@.len() != "landmark"@.len());
    }
    assert("slider"@ != "landmark"@) by {
        assert("slider"@.len() != "landmark"@.len());
    }
    assert("spinbutton"@ != "landmark"@) by {
        assert("spinbutton"@.len() != "landmark"@.len());
    }
    assert("status"@ != "landmark"@) by {
        assert("status"@.len() != "landmark"@.len());
    }
    assert("switch"@ != "landmark"@) by {
        assert("switch"@.len() != "landmark"@.len());
    }
    assert("tab"@ != "landmark"@) by {
        assert("tab"@.len() != "landmark"@.len());
    }
    assert("table"@ != "landmark"@) by {
        assert("table"@.len() != "landmark"@.len());
    }
    assert("tablist"@ != "landmark"@) by {
        assert("tablist"@.len() != "landmark"@.len());
    }
    assert("tabpanel"@ != "landmark"@) by {
        assert("tabpanel"@[0] != "landmark"@[0]);
    }
    assert("term"@ != "landmark"@) by {
        assert("term"@.len() != "landmark"@.len());
    }
    assert("textbox"@ != "landmark"@) by {
        assert("textbox"@.len() != "landmark"@.len());
    }
    assert("timer"@ != "landmark"@) by {
        assert("timer"@.len() != "landmark"@.len());
    }
    assert("toolbar"@ != "landmark"@) by {
        assert("toolbar"@.len() != "landmark"@.len());
    }
    assert("tooltip"@ != "landmark"@) by {
        assert("tooltip"@.len() != "landmark"@.len());
    }
    assert("tree"@ != "landmark"@) by {
        assert("tree"@.len() != "landmark"@.len());
    }
    assert("treegrid"@ != "landmark"@) by {
        assert("treegrid"@[0] != "landmark"@[0]);
    }
    assert("treeitem"@ != "landmark"@) by {
        assert("treeitem"@[0] != "landmark"@[0]);
    }
    assert("command"@ != "landmark"@) by {
        assert("command"@.len() != "landmark"@.len());
    }
    assert("composite"@ != "landmark"@) by {
        assert("composite"@.len() != "landmark"@.len());
    }
    assert("input"@ != "landmark"@) by {
        assert("input"@.len() != "landmark"@.len());
    }
    assert("range"@ != "landmark"@) by {
        assert("range"@.len() != "landmark"@.len());
    }
    assert("roletype"@ != "landmark"@) by {
        assert("roletype"@[0] != "landmark"@[0]);
    }
    assert("section"@ != "landmark"@) by {
        assert("section"@.len() != "landmark"@.len());
    }
    assert("sectionhead"@ != "landmark"@) by {
        assert("sectionhead"@.len() != "landmark"@.len());
    }
    assert("select"@ != "landmark"@) by {
        assert("select"@.len() != "landmark"@.len());
    }
    assert("structure"@ != "landmark"@) by {
        assert("structure"@.len() != "landmark"@.len());
    }
    assert("widget"@ != "landmark"@) by {
        assert("widget"@.len() != "landmark"@.len());
    }
    assert("window"@ != "landmark"@) by {
        assert("window"@.len() != "landmark"@.len());
    }
}

proof fn role_name_unique_range(b: Role)
    requires
        b.name_spec() == "range"@,
    ensures
        b == Role::Range,
{
    reveal_strlit("alert");
    reveal_strlit("alertdialog");
    reveal_strlit("application");
    reveal_strlit("article");
    reveal_strlit("banner");
    reveal_strlit("button");
    reveal_strlit("cell");
    reveal_strlit("checkbox");
    reveal_strlit("columnheader");
    reveal_strlit("combobox");
    reveal_strlit("complementary");
    reveal_strlit("contentinfo");
    reveal_strlit("definition");
    reveal_strlit("dialog");
    reveal_strlit("directory");
    reveal_strlit("document");
    reveal_strlit("feed");
    reveal_strlit("figure");
    reveal_strlit("form");
    reveal_strlit("grid");
    reveal_strlit("gridcell");
    reveal_strlit("group");
    reveal_strlit("heading");
    reveal_strlit("img");
    reveal_strlit("link");
    reveal_strlit("list");
    reveal_strlit("listbox");
    reveal_strlit("listitem");
    reveal_strlit("log");
    reveal_strlit("main");
    reveal_strlit("marquee");
    reveal_strlit("math");
    reveal_strlit("menu");
    reveal_strlit("menubar");
    reveal_strlit("menuitem");
    reveal_strlit("menuitemcheckbox");
    reveal_strlit("menuitemradio");
    reveal_strlit("meter");
    reveal_strlit("navigation");
    reveal_strlit("none");
    reveal_strlit("note");
    reveal_strlit("option");
    reveal_strlit("presentation");
    reveal_strlit("progressbar");
    reveal_strlit("radio");
    reveal_strlit("radiogroup");
    reveal_strlit("region");
    reveal_strlit("row");
    reveal_strlit("rowgroup");
    reveal_strlit("rowheader");
    reveal_strlit("scrollbar");
    reveal_strlit("search");
    reveal_strlit("searchbox");
    reveal_strlit("separator");
    reveal_strlit("slider");
    reveal_strlit("spinbutton");
    reveal_strlit("status");
    reveal_strlit("switch");
    reveal_strlit("tab");
    reveal_strlit("table");
    reveal_strlit("tablist");
    reveal_strlit("tabpanel");
    reveal_strlit("term");
    reveal_strlit("textbox");
    reveal_strlit("timer");
    reveal_strlit("toolbar");
    reveal_strlit("tooltip");
    reveal_strlit("tree");
    reveal_strlit("treegrid");
    reveal_strlit("treeitem");
    reveal_strlit("command");
    reveal_strlit("composite");
    reveal_strlit("input");
    reveal_strlit("landmark");
    reveal_strlit("range");
    reveal_strlit("roletype");
    reveal_strlit("section");
    reveal_strlit("sectionhead");
    reveal_strlit("select");
    reveal_strlit("structure");
    reveal_strlit("widget");
    reveal_strlit("window");
    assert("alert"@ != "range"@) by {
        assert("alert"@[0] != "range"@[0]);
    }
    assert("alertdialog"@ != "range"@) by {
        assert("alertdialog"@.len() != "range"@.len());
    }
    assert("application"@ != "range"@) by {
        assert("application"@.len() != "range"@.len());
    }
    assert("article"@ != "range"@) by {
        assert("article"@.len() != "range"@.len());
    }
    assert("banner"@ != "range"@) by {
        assert("banner"@.len() != "range"@.len());
    }
    assert("button"@ != "range"@) by {
        assert("button"@.len() != "range"@.len());
    }
    assert("cell"@ != "range"@) by {
        assert("cell"@.len() != "range"@.len());
    }
    assert("checkbox"@ != "range"@) by {
        assert("checkbox"@.len() != "range"@.len());
    }
    assert("columnheader"@ != "range"@) by {
        assert("columnheader"@.len() != "range"@.len());
    }
    assert("combobox"@ != "range"@) by {
        assert("combobox"@.len() != "range"@.len());
    }
    assert("complementary"@ != "range"@) by {
        assert("complementary"@.len() != "range"@.len());
    }
    assert("contentinfo"@ != "range"@) by {
        assert("contentinfo"@.len() != "range"@.len());
    }
    assert("definition"@ != "range"@) by {
        assert("definition"@.len() != "range"@.len());
    }
    assert("dialog"@ != "range"@) by {
        assert("dialog"@.len() != "range"@.len());
    }
    assert("directory"@ != "range"@) by {
        assert("directory"@.len() != "range"@.len());
    }
    assert("document"@ != "range"@) by {
        assert("document"@.len() != "range"@.len());
    }
    assert("feed"@ != "range"@) by {
        assert("feed"@.len() != "range"@.len());
    }
    assert("figure"@ != "range"@) by {
        assert("figure"@.len() != "range"@.len());
    }
    assert("form"@ != "range"@) by {
        assert("form"@.len() != "range"@.len());
    }
    assert("grid"@ != "range"@) by {
        assert("grid"@.len() != "range"@.len());
    }
    assert("gridcell"@ != "range"@) by {
        assert("gridcell"@.len() != "range"@.len());
    }
    assert("group"@ != "range"@) by {
        assert("group"@[0] != "range"@[0]);
    }
    assert("heading"@ != "range"@) by {
        assert("heading"@.len() != "range"@.len());
    }
    assert("img"@ != "range"@) by {
        assert("img"@.len() != "range"@.len());
    }
    assert("link"@ != "range"@) by {
        assert("link"@.len() != "range"@.len());
    }
    assert("list"@ != "range"@) by {
        assert("list"@.len() != "range"@.len());
    }
    assert("listbox"@ != "range"@) by {
        assert("listbox"@.len() != "range"@.len());
    }
    assert("listitem"@ != "range"@) by {
        assert("listitem"@.len() != "range"@.len());
    }
    assert("log"@ != "range"@) by {
        assert("log"@.len() != "range"@.len());
    }
    assert("main"@ != "range"@) by {
        assert("main"@.len() != "range"@.len());
    }
    assert("marquee"@ != "range"@) by {
        assert("marquee"@.len() != "range"@.len());
    }
    assert("math"@ != "range"@) by {
        assert("math"@.len() != "range"@.len());
    }
    assert("menu"@ != "range"@) by {
        assert("menu"@.len() != "range"@.len());
    }
    assert("menubar"@ != "range"@) by {
        assert("menubar"@.len() != "range"@.len());
    }
    assert("menuitem"@ != "range"@) by {
        assert("menuitem"@.len() != "range"@.len());
    }
    assert("menuitemcheckbox"@ != "range"@) by {
        assert("menuitemcheckbox"@.len() != "range"@.len());
    }
    assert("menuitemradio"@ != "range"@) by {
        assert("menuitemradio"@.len() != "range"@.len());
    }
    assert("meter"@ != "range"@) by {
        assert("meter"@[0] != "range"@[0]);
    }
    assert("navigation"@ != "range"@) by {
        assert("navigation"@.len() != "range"@.len());
    }
    assert("none"@ != "range"@) by {
        assert("none"@.len() != "range"@.len());
    }
    assert("note"@ != "range"@) by {
        assert("note"@.len() != "range"@.len());
    }
    assert("option"@ != "range"@) by {
        assert("option"@.len() != "range"@.len());
    }
    assert("presentation"@ != "range"@) by {
        assert("presentation"@.len() != "range"@.len());
    }
    assert("progressbar"@ != "range"@) by {
        assert("progressbar"@.len() != "range"@.len());
    }
    assert("radio"@ != "range"@) by {
        assert("radio"@[2] != "range"@[2]);
    }
    assert("radiogroup"@ != "range"@) by {
        assert("radiogroup"@.len() != "range"@.len());
    }
    assert("region"@ != "range"@) by {
        assert("region"@.len() != "range"@.len());
    }
    assert("row"@ != "range"@) by {
        assert("row"@.len() != "range"@.len());
    }
    assert("rowgroup"@ != "range"@) by {
        assert("rowgroup"@.len() != "range"@.len());
    }
    assert("rowheader"@ != "range"@) by {
        assert("rowheader"@.len() != "range"@.len());
    }
    assert("scrollbar"@ != "range"@) by {
        assert("scrollbar"@.len() != "range"@.len());
    }
    assert("search"@ != "range"@) by {
        assert("search"@.len() != "range"@.len());
    }
    assert("searchbox"@ != "range"@) by {
        assert("searchbox"@.len() != "range"@.len());
    }
    assert("separator"@ != "range"@) by {
        assert("separator"@.len() != "range"@.len());
    }
    assert("slider"@ != "range"@) by {
        assert("slider"@.len() != "range"@.len());
    }
    assert("spinbutton"@ != "range"@) by {
        assert("spinbutton"@.len() != "range"@.len());
    }
    assert("status"@ != "range"@) by {
        assert("status"@.len() != "range"@.len());
    }
    assert("switch"@ != "range"@) by {
        assert("switch"@.len() != "range"@.len());
    }
    assert("tab"@ != "range"@) by {
        assert("tab"@.len() != "range"@.len());
    }
    assert("table"@ != "range"@) by {
        assert("table"@[0] != "range"@[0]);
    }
    assert("tablist"@ != "range"@) by {
        assert("tablist"@.len() != "range"@.len());
    }
    assert("tabpanel"@ != "range"@) by {
        assert("tabpanel"@.len() != "range"@.len());
    }
    assert("term"@ != "range"@) by {
        assert("term"@.len() != "range"@.len());
    }
    assert("textbox"@ != "range"@) by {
        assert("textbox"@.len() != "range"@.len());
    }
    assert("timer"@ != "range"@) by {
        assert("timer"@[0] != "range"@[0]);
    }
    assert("toolbar"@ != "range"@) by {
        assert("toolbar"@.len() != "range"@.len());
    }
    assert("tooltip"@ != "range"@) by {
        assert("tooltip"@.len() != "range"@.len());
    }
    assert("tree"@ != "range"@) by {
        assert("tree"@.len() != "range"@.len());
    }
    assert("treegrid"@ != "range"@) by {
        assert("treegrid"@.len() != "range"@.len());
    }
    assert("treeitem"@ != "range"@) by {
        assert("treeitem"@.len() != "range"@.len());
    }
    assert("command"@ != "range"@) by {
        assert("command"@.len() != "range"@.len());
    }
    assert("composite"@ != "range"@) by {
        assert("composite"@.len() != "range"@.len());
    }
    assert("input"@ != "range"@) by {
        assert("input"@[0] != "range"@[0]);
    }
    assert("landmark"@ != "range"@) by {
        assert("landmark"@.len() != "range"@.len());
    }
    assert("roletype"@ != "range"@) by {
        assert("roletype"@.len() != "range"@.len());
    }
    assert("section"@ != "range"@) by {
        assert("section"@.len() != "range"@.len());
    }
    assert("sectionhead"@ != "range"@) by {
        assert("sectionhead"@.len() != "range"@.len());
    }
    assert("select"@ != "range"@) by {
        assert("select"@.len() != "range"@.len());
    }
    assert("structure"@ != "range"@) by {
        assert("structure"@.len() != "range"@.len());
    }
    assert("widget"@ != "range"@) by {
        assert("widget"@.len() != "range"@.len());
    }
    assert("window"@ != "range"@) by {
        assert("window"@.len() != "range"@.len());
    }
}

proof fn role_name_unique_roletype(b: Role)
    requires
        b.name_spec() == "roletype"@,
    ensures
        b == Role::Roletype,
{
    reveal_strlit("alert");
    reveal_strlit("alertdialog");
    reveal_strlit("application");
    reveal_strlit("article");
    reveal_strlit("banner");
    reveal_strlit("button");
    reveal_strlit("cell");
    reveal_strlit("checkbox");
    reveal_strlit("columnheader");
    reveal_strlit("combobox");
    reveal_strlit("complementary");
    reveal_strlit("contentinfo");
    reveal_strlit("definition");
    reveal_strlit("dialog");
    reveal_strlit("directory");
    reveal_strlit("document");
    reveal_strlit("feed");
    reveal_strlit("figure");
    reveal_strlit("form");
    reveal_strlit("grid");
    reveal_strlit("gridcell");
    reveal_strlit("group");
    reveal_strlit("heading");
    reveal_strlit("img");
    reveal_strlit("link");
    reveal_strlit("list");
    reveal_strlit("listbox");
    reveal_strlit("listitem");
    reveal_strlit("log");
    reveal_strlit("main");
    reveal_strlit("marquee");
    reveal_strlit("math");
    reveal_strlit("menu");
    reveal_strlit("menubar");
    reveal_strlit("menuitem");
    reveal_strlit("menuitemcheckbox");
    reveal_strlit("menuitemradio");
    reveal_strlit("meter");
    reveal_strlit("navigation");
    reveal_strlit("none");
    reveal_strlit("note");
    reveal_strlit("option");
    reveal_strlit("presentation");
    reveal_strlit("progressbar");
    reveal_strlit("radio");
    reveal_strlit("radiogroup");
    reveal_strlit("region");
    reveal_strlit("row");
    reveal_strlit("rowgroup");
    reveal_strlit("rowheader");
    reveal_strlit("scrollbar");
    reveal_strlit("search");
    reveal_strlit("searchbox");
    reveal_strlit("separator");
    reveal_strlit("slider");
    reveal_strlit("spinbutton");
    reveal_strlit("status");
    reveal_strlit("switch");
    reveal_strlit("tab");
    reveal_strlit("table");
    reveal_strlit("tablist");
    reveal_strlit("tabpanel");
    reveal_strlit("term");
    reveal_strlit("textbox");
    reveal_strlit("timer");
    reveal_strlit("toolbar");
    reveal_strlit("tooltip");
    reveal_strlit("tree");
    reveal_strlit("treegrid");
    reveal_strlit("treeitem");
    reveal_strlit("command");
    reveal_strlit("composite");
    reveal_strlit("input");
    reveal_strlit("landmark");
    reveal_strlit("range");
    reveal_strlit("roletype");
    reveal_strlit("section");
    reveal_strlit("sectionhead");
    reveal_strlit("select");
    reveal_strlit("structure");
    reveal_strlit("widget");
    reveal_strlit("window");
    assert("alert"@ != "roletype"@) by {
        assert("alert"@.len() != "roletype"@.len());
    }
    assert("alertdialog"@ != "roletype"@) by {
        assert("alertdialog"@.len() != "roletype"@.len());
    }
    assert("application"@ != "roletype"@) by {
        assert("application"@.len() != "roletype"@.len());
    }
    assert("article"@ != "roletype"@) by {
        assert("article"@.len() != "roletype"@.len());
    }
    assert("banner"@ != "roletype"@) by {
        assert("banner"@.len() != "roletype"@.len());
    }
    assert("button"@ != "roletype"@) by {
        assert("button"@.len() != "roletype"@.len());
    }
    assert("cell"@ != "roletype"@) by {
        assert("cell"@.len() != "roletype"@.len());
    }
    assert("checkbox"@ != "roletype"@) by {
        assert("checkbox"@[0] != "roletype"@[0]);
    }
    assert("columnheader"@ != "roletype"@) by {
        assert("columnheader"@.len() != "roletype"@.len());
    }
    assert("combobox"@ != "roletype"@) by {
        assert("combobox"@[0] != "roletype"@[0]);
    }
    assert("complementary"@ != "roletype"@) by {
        assert("complementary"@.len() != "roletype"@.len());
    }
    assert("contentinfo"@ != "roletype"@) by {
        assert("contentinfo"@.len() != "roletype"@.len());
    }
    assert("definition"@ != "roletype"@) by {
        assert("definition"@.len() != "roletype"@.len());
    }
    assert("dialog"@ != "roletype"@) by {
        assert("dialog"@.len() != "roletype"@.len());
    }
    assert("directory"@ != "roletype"@) by {
        assert("directory"@.len() != "roletype"@.len());
    }
    assert("document"@ != "roletype"@) by {
        assert("document"@[0] != "roletype"@[0]);
    }
    assert("feed"@ != "roletype"@) by {
        assert("feed"@.len() != "roletype"@.len());
    }
    assert("figure"@ != "roletype"@) by {
        assert("figure"@.len() != "roletype"@.len());
    }
    assert("form"@ != "roletype"@) by {
        assert("form"@.len() != "roletype"@.len());
    }
    assert("grid"@ != "roletype"@) by {
        assert("grid"@.len() != "roletype"@.len());
    }
    assert("gridcell"@ != "roletype"@) by {
        assert("gridcell"@[0] != "roletype"@[0]);
    }
    assert("group"@ != "roletype"@) by {
        assert("group"@.len() != "roletype"@.len());
    }
    assert("heading"@ != "roletype"@) by {
        assert("heading"@.len() != "roletype"@.len());
    }
    assert("img"@ != "roletype"@) by {
        assert("img"@.len() != "roletype"@.len());
    }
    assert("link"@ != "roletype"@) by {
        assert("link"@.len() != "roletype"@.len());
    }
    assert("list"@ != "roletype"@) by {
        assert("list"@.len() != "roletype"@.len());
    }
    assert("listbox"@ != "roletype"@) by {
        assert("listbox"@.len() != "roletype"@.len());
    }
    assert("listitem"@ != "roletype"@) by {
        assert("listitem"@[0] != "roletype"@[0]);
    }
    assert("log"@ != "roletype"@) by {
        assert("log"@.len() != "roletype"@.len());
    }
    assert("main"@ != "roletype"@) by {
        assert("main"@.len() != "roletype"@.len());
    }
    assert("marquee"@ != "roletype"@) by {
        assert("marquee"@.len() != "roletype"@.len());
    }
    assert("math"@ != "roletype"@) by {
        assert("math"@.len() != "roletype"@.len());
    }
    assert("menu"@ != "roletype"@) by {
        assert("menu"@.len() != "roletype"@.len());
    }
    assert("menubar"@ != "roletype"@) by {
        assert("menubar"@.len() != "roletype"@.len());
    }
    assert("menuitem"@ != "roletype"@) by {
        assert("menuitem"@[0] != "roletype"@[0]);
    }
    assert("menuitemcheckbox"@ != "roletype"@) by {
        assert("menuitemcheckbox"@.len() != "roletype"@.len());
    }
    assert("menuitemradio"@ != "roletype"@) by {
        assert("menuitemradio"@.len() != "roletype"@.len());
    }
    assert("meter"@ != "roletype"@) by {
        assert("meter"@.len() != "roletype"@.len());
    }
    assert("navigation"@ != "roletype"@) by {
        assert("navigation"@.len() != "roletype"@.len());
    }
    assert("none"@ != "roletype"@) by {
        assert("none"@.len() != "roletype"@.len());
    }
    assert("note"@ != "roletype"@) by {
        assert("note"@.len() != "roletype"@.len());
    }
    assert("option"@ != "roletype"@) by {
        assert("option"@.len() != "roletype"@.len());
    }
    assert("presentation"@ != "roletype"@) by {
        assert("presentation"@.len() != "roletype"@.len());
    }
    assert("progressbar"@ != "roletype"@) by {
        assert("progressbar"@.len() != "roletype"@.len());
    }
    assert("radio"@ != "roletype"@) by {
        assert("radio"@.len() != "roletype"@.len());
    }
    assert("radiogroup"@ != "roletype"@) by {
        assert("radiogroup"@.len() != "roletype"@.len());
    }
    assert("region"@ != "roletype"@) by {
        assert("region"@.len() != "roletype"@.len());
    }
    assert("row"@ != "roletype"@) by {
        assert("row"@.len() != "roletype"@.len());
    }
    assert("rowgroup"@ != "roletype"@) by {
        assert("rowgroup"@[2] != "roletype"@[2]);
    }
    assert("rowheader"@ != "roletype"@) by {
        assert("rowheader"@.len() != "roletype"@.len());
    }
    assert("scrollbar"@ != "roletype"@) by {
        assert("scrollbar"@.len() != "roletype"@.len());
    }
    assert("search"@ != "roletype"@) by {
        assert("search"@.len() != "roletype"@.len());
    }
    assert("searchbox"@ != "roletype"@) by {
        assert("searchbox"@.len() != "roletype"@.len());
    }
    assert("separator"@ != "roletype"@) by {
        assert("separator"@.len() != "roletype"@.len());
    }
    assert("slider"@ != "roletype"@) by {
        assert("slider"@.len() != "roletype"@.len());
    }
    assert("spinbutton"@ != "roletype"@) by {
        assert("spinbutton"@.len() != "roletype"@.len());
    }
    assert("status"@ != "roletype"@) by {
        assert("status"@.len() != "roletype"@.len());
    }
    assert("switch"@ != "roletype"@) by {
        assert("switch"@.len() != "roletype"@.len());
    }
    assert("tab"@ != "roletype"@) by {
        assert("tab"@.len() != "roletype"@.len());
    }
    assert("table"@ != "roletype"@) by {
        assert("table"@.len() != "roletype"@.len());
    }
    assert("tablist"@ != "roletype"@) by {
        assert("tablist"@.len() != "roletype"@.len());
    }
    assert("tabpanel"@ != "roletype"@) by {
        assert("tabpanel"@[0] != "roletype"@[0]);
    }
    assert("term"@ != "roletype"@) by {
        assert("term"@.len() != "roletype"@.len());
    }
    assert("textbox"@ != "roletype"@) by {
        assert("textbox"@.len() != "roletype"@.len());
    }
    assert("timer"@ != "roletype"@) by {
        assert("timer"@.len() != "roletype"@.len());
    }
    assert("toolbar"@ != "roletype"@) by {
        assert("toolbar"@.len() != "roletype"@.len());
    }
    assert("tooltip"@ != "roletype"@) by {
        assert("tooltip"@.len() != "roletype"@.len());
    }
    assert("tree"@ != "roletype"@) by {
        assert("tree"@.len() != "roletype"@.len());
    }
    assert("treegrid"@ != "roletype"@) by {
        assert("treegrid"@[0] != "roletype"@[0]);
    }
    assert("treeitem"@ != "roletype"@) by {
        assert("treeitem"@[0] != "roletype"@[0]);
    }
    assert("command"@ != "roletype"@) by {
        assert("command"@.len() != "roletype"@.len());
    }
    assert("composite"@ != "roletype"@) by {
        assert("composite"@.len() != "roletype"@.len());
    }
    assert("input"@ != "roletype"@) by {
        assert("input"@.len() != "roletype"@.len());
    }
    assert("landmark"@ != "roletype"@) by {
        assert("landmark"@[0] != "roletype"@[0]);
    }
    assert("range"@ != "roletype"@) by {
        assert("range"@.len() != "roletype"@.len());
    }
    assert("section"@ != "roletype"@) by {
        assert("section"@.len() != "roletype"@.len());
    }
    assert("sectionhead"@ != "roletype"@) by {
        assert("sectionhead"@.len() != "roletype"@.len());
    }
    assert("select"@ != "roletype"@) by {
        assert("select"@.len() != "roletype"@.len());
    }
    assert("structure"@ != "roletype"@) by {
        assert("structure"@.len() != "roletype"@.len());
    }
    assert("widget"@ != "roletype"@) by {
        assert("widget"@.len() != "roletype"@.len());
    }
    assert("window"@ != "roletype"@) by {
        assert("window"@.len() != "roletype"@.len());
    }
}

proof fn role_name_unique_section(b: Role)
    requires
        b.name_spec() == "section"@,
    ensures
        b == Role::Section,
{
    reveal_strlit("alert");
    reveal_strlit("alertdialog");
    reveal_strlit("application");
    reveal_strlit("article");
    reveal_strlit("banner");
    reveal_strlit("button");
    reveal_strlit("cell");
    reveal_strlit("checkbox");
    reveal_strlit("columnheader");
    reveal_strlit("combobox");
    reveal_strlit("complementary");
    reveal_strlit("contentinfo");
    reveal_strlit("definition");
    reveal_strlit("dialog");
    reveal_strlit("directory");
    reveal_strlit("document");
    reveal_strlit("feed");
    reveal_strlit("figure");
    reveal_strlit("form");
    reveal_strlit("grid");
    reveal_strlit("gridcell");
    reveal_strlit("group");
    reveal_strlit("heading");
    reveal_strlit("img");
    reveal_strlit("link");
    reveal_strlit("list");
    reveal_strlit("listbox");
    reveal_strlit("listitem");
    reveal_strlit("log");
    reveal_strlit("main");
    reveal_strlit("marquee");
    reveal_strlit("math");
    reveal_strlit("menu");
    reveal_strlit("menubar");
    reveal_strlit("menuitem");
    reveal_strlit("menuitemcheckbox");
    reveal_strlit("menuitemradio");
    reveal_strlit("meter");
    reveal_strlit("navigation");
    reveal_strlit("none");
    reveal_strlit("note");
    reveal_strlit("option");
    reveal_strlit("presentation");
    reveal_strlit("progressbar");
    reveal_strlit("radio");
    reveal_strlit("radiogroup");
    reveal_strlit("region");
    reveal_strlit("row");
    reveal_strlit("rowgroup");
    reveal_strlit("rowheader");
    reveal_strlit("scrollbar");
    reveal_strlit("search");
    reveal_strlit("searchbox");
    reveal_strlit("separator");
    reveal_strlit("slider");
    reveal_strlit("spinbutton");
    reveal_strlit("status");
    reveal_strlit("switch");
    reveal_strlit("tab");
    reveal_strlit("table");
    reveal_strlit("tablist");
    reveal_strlit("tabpanel");
    reveal_strlit("term");
    reveal_strlit("textbox");
    reveal_strlit("timer");
    reveal_strlit("toolbar");
    reveal_strlit("tooltip");
    reveal_strlit("tree");
    reveal_strlit("treegrid");
    reveal_strlit("treeitem");
    reveal_strlit("command");
    reveal_strlit("composite");
    reveal_strlit("input");
    reveal_strlit("landmark");
    reveal_strlit("range");
    reveal_strlit("roletype");
    reveal_strlit("section");
    reveal_strlit("sectionhead");
    reveal_strlit("select");
    reveal_strlit("structure");
    reveal_strlit("widget");
    reveal_strlit("window");
    assert("alert"@ != "section"@) by {
        assert("alert"@.len() != "section"@.len());
    }
    assert("alertdialog"@ != "section"@) by {
        assert("alertdialog"@.len() != "section"@.len());
    }
    assert("application"@ != "section"@) by {
        assert("application"@.len() != "section"@.len());
    }
    assert("article"@ != "section"@) by {
        assert("article"@[0] != "section"@[0]);
    }
    assert("banner"@ != "section"@) by {
        assert("banner"@.len() != "section"@.len());
    }
    assert("button"@ != "section"@) by {
        assert("button"@.len() != "section"@.len());
    }
    assert("cell"@ != "section"@) by {
        assert("cell"@.len() != "section"@.len());
    }
    assert("checkbox"@ != "section"@) by {
        assert("checkbox"@.len() != "section"@.len());
    }
    assert("columnheader"@ != "section"@) by {
        assert("columnheader"@.len() != "section"@.len());
    }
    assert("combobox"@ != "section"@) by {
        assert("combobox"@.len() != "section"@.len());
    }
    assert("complementary"@ != "section"@) by {
        assert("complementary"@.len() != "section"@.len());
    }
    assert("contentinfo"@ != "section"@) by {
        assert("contentinfo"@.len() != "section"@.len());
    }
    assert("definition"@ != "section"@) by {
        assert("definition"@.len() != "section"@.len());
    }
    assert("dialog"@ != "section"@) by {
        assert("dialog"@.len() != "section"@.len());
    }
    assert("directory"@ != "section"@) by {
        assert("directory"@.len() != "section"@.len());
    }
    assert("document"@ != "section"@) by {
        assert("document"@.len() != "section"@.len());
    }
    assert("feed"@ != "section"@) by {
        assert("feed"@.len() != "section"@.len());
    }
    assert("figure"@ != "section"@) by {
        assert("figure"@.len() != "section"@.len());
    }
    assert("form"@ != "section"@) by {
        assert("form"@.len() != "section"@.len());
    }
    assert("grid"@ != "section"@) by {
        assert("grid"@.len() != "section"@.len());
    }
    assert("gridcell"@ != "section"@) by {
        assert("gridcell"@.len() != "section"@.len());
    }
    assert("group"@ != "section"@) by {
        assert("group"@.len() != "section"@.len());
    }
    assert("heading"@ != "section"@) by {
        assert("heading"@[0] != "section"@[0]);
    }
    assert("img"@ != "section"@) by {
        assert("img"@.len() != "section"@.len());
    }
    assert("link"@ != "section"@) by {
        assert("link"@.len() != "section"@.len());
    }
    assert("list"@ != "section"@) by {
        assert("list"@.len() != "section"@.len());
    }
    assert("listbox"@ != "section"@) by {
        assert("listbox"@[0] != "section"@[0]);
    }
    assert("listitem"@ != "section"@) by {
        assert("listitem"@.len() != "section"@.len());
    }
    assert("log"@ != "section"@) by {
        assert("log"@.len() != "section"@.len());
    }
    assert("main"@ != "section"@) by {
        assert("main"@.len() != "section"@.len());
    }
    assert("marquee"@ != "section"@) by {
        assert("marquee"@[0] != "section"@[0]);
    }
    assert("math"@ != "section"@) by {
        assert("math"@.len() != "section"@.len());
    }
    assert("menu"@ != "section"@) by {
        assert("menu"@.len() != "section"@.len());
    }
    assert("menubar"@ != "section"@) by {
        assert("menubar"@[0] != "section"@[0]);
    }
    assert("menuitem"@ != "section"@) by {
        assert("menuitem"@.len() != "section"@.len());
    }
    assert("menuitemcheckbox"@ != "section"@) by {
        assert("menuitemcheckbox"@.len() != "section"@.len());
    }
    assert("menuitemradio"@ != "section"@) by {
        assert("menuitemradio"@.len() != "section"@.len());
    }
    assert("meter"@ != "section"@) by {
        assert("meter"@.len() != "section"@.len());
    }
    assert("navigation"@ != "section"@) by {
        assert("navigation"@.len() != "section"@.len());
    }
    assert("none"@ != "section"@) by {
        assert("none"@.len() != "section"@.len());
    }
    assert("note"@ != "section"@) by {
        assert("note"@.len() != "section"@.len());
    }
    assert("option"@ != "section"@) by {
        assert("option"@.len() != "section"@.len());
    }
    assert("presentation"@ != "section"@) by {
        assert("presentation"@.len() != "section"@.len());
    }
    assert("progressbar"@ != "section"@) by {
        assert("progressbar"@.len() != "section"@.len());
    }
    assert("radio"@ != "section"@) by {
        assert("radio"@.len() != "section"@.len());
    }
    assert("radiogroup"@ != "section"@) by {
        assert("radiogroup"@.len() != "section"@.len());
    }
    assert("region"@ != "section"@) by {
        assert("region"@.len() != "section"@.len());
    }
    assert("row"@ != "section"@) by {
        assert("row"@.len() != "section"@.len());
    }
    assert("rowgroup"@ != "section"@) by {
        assert("rowgroup"@.len() != "section"@.len());
    }
    assert("rowheader"@ != "section"@) by {
        assert("rowheader"@.len() != "section"@.len());
    }
    assert("scrollbar"@ != "section"@) by {
        assert("scrollbar"@.len() != "section"@.len());
    }
    assert("search"@ != "section"@) by {
        assert("search"@.len() != "section"@.len());
    }
    assert("searchbox"@ != "section"@) by {
        assert("searchbox"@.len() != "section"@.len());
    }
    assert("separator"@ != "section"@) by {
        assert("separator"@.len() != "section"@.len());
    }
    assert("slider"@ != "section"@) by {
        assert("slider"@.len() != "section"@.len());
    }
    assert("spinbutton"@ != "section"@) by {
        assert("spinbutton"@.len() != "section"@.len());
    }
    assert("status"@ != "section"@) by {
        assert("status"@.len() != "section"@.len());
    }
    assert("switch"@ != "section"@) by {
        assert("switch"@.len() != "section"@.len());
    }
    assert("tab"@ != "section"@) by {
        assert("tab"@.len() != "section"@.len());
    }
    assert("table"@ != "section"@) by {
        assert("table"@.len() != "section"@.len());
    }
    assert("tablist"@ != "section"@) by {
        assert("tablist"@[0] != "section"@[0]);
    }
    assert("tabpanel"@ != "section"@) by {
        assert("tabpanel"@.len() != "section"@.len());
    }
    assert("term"@ != "section"@) by {
        assert("term"@.len() != "section"@.len());
    }
    assert("textbox"@ != "section"@) by {
        assert("textbox"@[0] != "section"@[0]);
    }
    assert("timer"@ != "section"@) by {
        assert("timer"@.len() != "section"@.len());
    }
    assert("toolbar"@ != "section"@) by {
        assert("toolbar"@[0] != "section"@[0]);
    }
    assert("tooltip"@ != "section"@) by {
        assert("tooltip"@[0] != "section"@[0]);
    }
    assert("tree"@ != "section"@) by {
        assert("tree"@.len() != "section"@.len());
    }
    assert("treegrid"@ != "section"@) by {
        assert("treegrid"@.len() != "section"@.len());
    }
    assert("treeitem"@ != "section"@) by {
        assert("treeitem"@.len() != "section"@.len());
    }
    assert("command"@ != "section"@) by {
        assert("command"@[0] != "section"@[0]);
    }
    assert("composite"@ != "section"@) by {
        assert("composite"@.len() != "section"@.len());
    }
    assert("input"@ != "section"@) by {
        assert("input"@.len() != "section"@.len());
    }
    assert("landmark"@ != "section"@) by {
        assert("landmark"@.len() != "section"@.len());
    }
    assert("range"@ != "section"@) by {
        assert("range"@.len() != "section"@.len());
    }
    assert("roletype"@ != "section"@) by {
        assert("roletype"@.len() != "section"@.len());
    }
    assert("sectionhead"@ != "section"@) by {
        assert("sectionhead"@.len() != "section"@.len());
    }
    assert("select"@ != "section"@) by {
        assert("select"@.len() != "section"@.len());
    }
    assert("structure"@ != "section"@) by {
        assert("structure"@.len() != "section"@.len());
    }
    assert("widget"@ != "section"@) by {
        assert("widget"@.len() != "section"@.len());
    }
    assert("window"@ != "section"@) by {
        assert("window"@.len() != "section"@.len());
    }
}

proof fn role_name_unique_sectionhead(b: Role)
    requires
        b.name_spec() == "sectionhead"@,
    ensures
        b == Role::Sectionhead,
{
    reveal_strlit("alert");
    reveal_strlit("alertdialog");
    reveal_strlit("application");
    reveal_strlit("article");
    reveal_strlit("banner");
    reveal_strlit("button");
    reveal_strlit("cell");
    reveal_strlit("checkbox");
    reveal_strlit("columnheader");
    reveal_strlit("combobox");
    reveal_strlit("complementary");
    reveal_strlit("contentinfo");
    reveal_strlit("definition");
    reveal_strlit("dialog");
    reveal_strlit("directory");
    reveal_strlit("document");
    reveal_strlit("feed");
    reveal_strlit("figure");
    reveal_strlit("form");
    reveal_strlit("grid");
    reveal_strlit("gridcell");
    reveal_strlit("group");
    reveal_strlit("heading");
    reveal_strlit("img");
    reveal_strlit("link");
    reveal_strlit("list");
    reveal_strlit("listbox");
    reveal_strlit("listitem");
    reveal_strlit("log");
    reveal_strlit("main");
    reveal_strlit("marquee");
    reveal_strlit("math");
    reveal_strlit("menu");
    reveal_strlit("menubar");
    reveal_strlit("menuitem");
    reveal_strlit("menuitemcheckbox");
    reveal_strlit("menuitemradio");
    reveal_strlit("meter");
    reveal_strlit("navigation");
    reveal_strlit("none");
    reveal_strlit("note");
    reveal_strlit("option");
    reveal_strlit("presentation");
    reveal_strlit("progressbar");
    reveal_strlit("radio");
    reveal_strlit("radiogroup");
    reveal_strlit("region");
    reveal_strlit("row");
    reveal_strlit("rowgroup");
    reveal_strlit("rowheader");
    reveal_strlit("scrollbar");
    reveal_strlit("search");
    reveal_strlit("searchbox");
    reveal_strlit("separator");
    reveal_strlit("slider");
    reveal_strlit("spinbutton");
    reveal_strlit("status");
    reveal_strlit("switch");
    reveal_strlit("tab");
    reveal_strlit("table");
    reveal_strlit("tablist");
    reveal_strlit("tabpanel");
    reveal_strlit("term");
    reveal_strlit("textbox");
    reveal_strlit("timer");
    reveal_strlit("toolbar");
    reveal_strlit("tooltip");
    reveal_strlit("tree");
    reveal_strlit("treegrid");
    reveal_strlit("treeitem");
    reveal_strlit("command");
    reveal_strlit("composite");
    reveal_strlit("input");
    reveal_strlit("landmark");
    reveal_strlit("range");
    reveal_strlit("roletype");
    reveal_strlit("section");
    reveal_strlit("sectionhead");
    reveal_strlit("select");
    reveal_strlit("structure");
    reveal_strlit("widget");
    reveal_strlit("window");
    assert("alert"@ != "sectionhead"@) by {
        assert("alert"@.len() != "sectionhead"@.len());
    }
    assert("alertdialog"@ != "sectionhead"@) by {
        assert("alertdialog"@[0] != "sectionhead"@[0]);
    }
    assert("application"@ != "sectionhead"@) by {
        assert("application"@[0] != "sectionhead"@[0]);
    }
    assert("article"@ != "sectionhead"@) by {
        assert("article"@.len() != "sectionhead"@.len());
    }
    assert("banner"@ != "sectionhead"@) by {
        assert("banner"@.len() != "sectionhead"@.len());
    }
    assert("button"@ != "sectionhead"@) by {
        assert("button"@.len() != "sectionhead"@.len());
    }
    assert("cell"@ != "sectionhead"@) by {
        assert("cell"@.len() != "sectionhead"@.len());
    }
    assert("checkbox"@ != "sectionhead"@) by {
        assert("checkbox"@.len() != "sectionhead"@.len());
    }
    assert("columnheader"@ != "sectionhead"@) by {
        assert("columnheader"@.len() != "sectionhead"@.len());
    }
    assert("combobox"@ != "sectionhead"@) by {
        assert("combobox"@.len() != "sectionhead"@.len());
    }
    assert("complementary"@ != "sectionhead"@) by {
        assert("complementary"@.len() != "sectionhead"@.len());
    }
    assert("contentinfo"@ != "sectionhead"@) by {
        assert("contentinfo"@[0] != "sectionhead"@[0]);
    }
    assert("definition"@ != "sectionhead"@) by {
        assert("definition"@.len() != "sectionhead"@.len());
    }
    assert("dialog"@ != "sectionhead"@) by {
        assert("dialog"@.len() != "sectionhead"@.len());
    }
    assert("directory"@ != "sectionhead"@) by {
        assert("directory"@.len() != "sectionhead"@.len());
    }
    assert("document"@ != "sectionhead"@) by {
        assert("document"@.len() != "sectionhead"@.len());
    }
    assert("feed"@ != "sectionhead"@) by {
        assert("feed"@.len() != "sectionhead"@.len());
    }
    assert("figure"@ != "sectionhead"@) by {
        assert("figure"@.len() != "sectionhead"@.len());
    }
    assert("form"@ != "sectionhead"@) by {
        assert("form"@.len() != "sectionhead"@.len());
    }
    assert("grid"@ != "sectionhead"@) by {
        assert("grid"@.len() != "sectionhead"@.len());
    }
    assert("gridcell"@ != "sectionhead"@) by {
        assert("gridcell"@.len() != "sectionhead"@.len());
    }
    assert("group"@ != "sectionhead"@) by {
        assert("group"@.len() != "sectionhead"@.len());
    }
    assert("heading"@ != "sectionhead"@) by {
        assert("heading"@.len() != "sectionhead"@.len());
    }
    assert("img"@ != "sectionhead"@) by {
        assert("img"@.len() != "sectionhead"@.len());
    }
    assert("link"@ != "sectionhead"@) by {
        assert("link"@.len() != "sectionhead"@.len());
    }
    assert("list"@ != "sectionhead"@) by {
        assert("list"@.len() != "sectionhead"@.len());
    }
    assert("listbox"@ != "sectionhead"@) by {
        assert("listbox"@.len() != "sectionhead"@.len());
    }
    assert("listitem"@ != "sectionhead"@) by {
        assert("listitem"@.len() != "sectionhead"@.len());
    }
    assert("log"@ != "sectionhead"@) by {
        assert("log"@.len() != "sectionhead"@.len());
    }
    assert("main"@ != "sectionhead"@) by {
        assert("main"@.len() != "sectionhead"@.len());
    }
    assert("marquee"@ != "sectionhead"@) by {
        assert("marquee"@.len() != "sectionhead"@.len());
    }
    assert("math"@ != "sectionhead"@) by {
        assert("math"@.len() != "sectionhead"@.len());
    }
    assert("menu"@ != "sectionhead"@) by {
        assert("menu"@.len() != "sectionhead"@.len());
    }
    assert("menubar"@ != "sectionhead"@) by {
        assert("menubar"@.len() != "sectionhead"@.len());
    }
    assert("menuitem"@ != "sectionhead"@) by {
        assert("menuitem"@.len() != "sectionhead"@.len());
    }
    assert("menuitemcheckbox"@ != "sectionhead"@) by {
        assert("menuitemcheckbox"@.len() != "sectionhead"@.len());
    }
    assert("menuitemradio"@ != "sectionhead"@) by {
        assert("menuitemradio"@.len() != "sectionhead"@.len());
    }
    assert("meter"@ != "sectionhead"@) by {
        assert("meter"@.len() != "sectionhead"@.len());
    }
    assert("navigation"@ != "sectionhead"@) by {
        assert("navigation"@.len() != "sectionhead"@.len());
    }
    assert("none"@ != "sectionhead"@) by {
        assert("none"@.len() != "sectionhead"@.len());
    }
    assert("note"@ != "sectionhead"@) by {
        assert("note"@.len() != "sectionhead"@.len());
    }
    assert("option"@ != "sectionhead"@) by {
        assert("option"@.len() != "sectionhead"@.len());
    }
    assert("presentation"@ != "sectionhead"@) by {
        assert("presentation"@.len() != "sectionhead"@.len());
    }
    assert("progressbar"@ != "sectionhead"@) by {
        assert("progressbar"@[0] != "sectionhead"@[0]);
    }
    assert("radio"@ != "sectionhead"@) by {
        assert("radio"@.len() != "sectionhead"@.len());
    }
    assert("radiogroup"@ != "sectionhead"@) by {
        assert("radiogroup"@.len() != "sectionhead"@.len());
    }
    assert("region"@ != "sectionhead"@) by {
        assert("region"@.len() != "sectionhead"@.len());
    }
    assert("row"@ != "sectionhead"@) by {
        assert("row"@.len() != "sectionhead"@.len());
    }
    assert("rowgroup"@ != "sectionhead"@) by {
        assert("rowgroup"@.len() != "sectionhead"@.len());
    }
    assert("rowheader"@ != "sectionhead"@) by {
        assert("rowheader"@.len() != "sectionhead"@.len());
    }
    assert("scrollbar"@ != "sectionhead"@) by {
        assert("scrollbar"@.len() != "sectionhead"@.len());
    }
    assert("search"@ != "sectionhead"@) by {
        assert("search"@.len() != "sectionhead"@.len());
    }
    assert("searchbox"@ != "sectionhead"@) by {
        assert("searchbox"@.len() != "sectionhead"@.len());
    }
    assert("separator"@ != "sectionhead"@) by {
        assert("separator"@.len() != "sectionhead"@.len());
    }
    assert("slider"@ != "sectionhead"@) by {
        assert("slider"@.len() != "sectionhead"@.len());
    }
    assert("spinbutton"@ != "sectionhead"@) by {
        assert("spinbutton"@.len() != "sectionhead"@.len());
    }
    assert("status"@ != "sectionhead"@) by {
        assert("status"@.len() != "sectionhead"@.len());
    }
    assert("switch"@ != "sectionhead"@) by {
        assert("switch"@.len() != "sectionhead"@.len());
    }
    assert("tab"@ != "sectionhead"@) by {
        assert("tab"@.len() != "sectionhead"@.len());
    }
    assert("table"@ != "sectionhead"@) by {
        assert("table"@.len() != "sectionhead"@.len());
    }
    assert("tablist"@ != "sectionhead"@) by {
        assert("tablist"@.len() != "sectionhead"@.len());
    }
    assert("tabpanel"@ != "sectionhead"@) by {
        assert("tabpanel"@.len() != "sectionhead"@.len());
    }
    assert("term"@ != "sectionhead"@) by {
        assert("term"@.len() != "sectionhead"@.len());
    }
    assert("textbox"@ != "sectionhead"@) by {
        assert("textbox"@.len() != "sectionhead"@.len());
    }
    assert("timer"@ != "sectionhead"@) by {
        assert("timer"@.len() != "sectionhead"@.len());
    }
    assert("toolbar"@ != "sectionhead"@) by {
        assert("toolbar"@.len() != "sectionhead"@.len());
    }
    assert("tooltip"@ != "sectionhead"@) by {
        assert("tooltip"@.len() != "sectionhead"@.len());
    }
    assert("tree"@ != "sectionhead"@) by {
        assert("tree"@.len() != "sectionhead"@.len());
    }
    assert("treegrid"@ != "sectionhead"@) by {
        assert("treegrid"@.len() != "sectionhead"@.len());
    }
    assert("treeitem"@ != "sectionhead"@) by {
        assert("treeitem"@.len() != "sectionhead"@.len());
    }
    assert("command"@ != "sectionhead"@) by {
        assert("command"@.len() != "sectionhead"@.len());
    }
    assert("composite"@ != "sectionhead"@) by {
        assert("composite"@.len() != "sectionhead"@.len());
    }
    assert("input"@ != "sectionhead"@) by {
        assert("input"@.len() != "sectionhead"@.len());
    }
    assert("landmark"@ != "sectionhead"@) by {
        assert("landmark"@.len() != "sectionhead"@.len());
    }
    assert("range"@ != "sectionhead"@) by {
        assert("range"@.len() != "sectionhead"@.len());
    }
    assert("roletype"@ != "sectionhead"@) by {
        assert("roletype"@.len() != "sectionhead"@.len());
    }
    assert("section"@ != "sectionhead"@) by {
        assert("section"@.len() != "sectionhead"@.len());
    }
    assert("select"@ != "sectionhead"@) by {
        assert("select"@.len() != "sectionhead"@.len());
    }
    assert("structure"@ != "sectionhead"@) by {
        assert("structure"@.len() != "sectionhead"@.len());
    }
    assert("widget"@ != "sectionhead"@) by {
        assert("widget"@.len() != "sectionhead"@.len());
    }
    assert("window"@ != "sectionhead"@) by {
        assert("window"@.len() != "sectionhead"@.len());
    }
}

proof fn role_name_unique_select(b: Role)
    requires
        b.name_spec() == "select"@,
    ensures
        b == Role::Select,
{
    reveal_strlit("alert");
    reveal_strlit("alertdialog");
    reveal_strlit("application");
    reveal_strlit("article");
    reveal_strlit("banner");
    reveal_strlit("button");
    reveal_strlit("cell");
    reveal_strlit("checkbox");
    reveal_strlit("columnheader");
    reveal_strlit("combobox");
    reveal_strlit("complementary");
    reveal_strlit("contentinfo");
    reveal_strlit("definition");
    reveal_strlit("dialog");
    reveal_strlit("directory");
    reveal_strlit("document");
    reveal_strlit("feed");
    reveal_strlit("figure");
    reveal_strlit("form");
    reveal_strlit("grid");
    reveal_strlit("gridcell");
    reveal_strlit("group");
    reveal_strlit("heading");
    reveal_strlit("img");
    reveal_strlit("link");
    reveal_strlit("list");
    reveal_strlit("listbox");
    reveal_strlit("listitem");
    reveal_strlit("log");
    reveal_strlit("main");
    reveal_strlit("marquee");
    reveal_strlit("math");
    reveal_strlit("menu");
    reveal_strlit("menubar");
    reveal_strlit("menuitem");
    reveal_strlit("menuitemcheckbox");
    reveal_strlit("menuitemradio");
    reveal_strlit("meter");
    reveal_strlit("navigation");
    reveal_strlit("none");
    reveal_strlit("note");
    reveal_strlit("option");
    reveal_strlit("presentation");
    reveal_strlit("progressbar");
    reveal_strlit("radio");
    reveal_strlit("radiogroup");
    reveal_strlit("region");
    reveal_strlit("row");
    reveal_strlit("rowgroup");
    reveal_strlit("rowheader");
    reveal_strlit("scrollbar");
    reveal_strlit("search");
    reveal_strlit("searchbox");
    reveal_strlit("separator");
    reveal_strlit("slider");
    reveal_strlit("spinbutton");
    reveal_strlit("status");
    reveal_strlit("switch");
    reveal_strlit("tab");
    reveal_strlit("table");
    reveal_strlit("tablist");
    reveal_strlit("tabpanel");
    reveal_strlit("term");
    reveal_strlit("textbox");
    reveal_strlit("timer");
    reveal_strlit("toolbar");
    reveal_strlit("tooltip");
    reveal_strlit("tree");
    reveal_strlit("treegrid");
    reveal_strlit("treeitem");
    reveal_strlit("command");
    reveal_strlit("composite");
    reveal_strlit("input");
    reveal_strlit("landmark");
    reveal_strlit("range");
    reveal_strlit("roletype");
    reveal_strlit("section");
    reveal_strlit("sectionhead");
    reveal_strlit("select");
    reveal_strlit("structure");
    reveal_strlit("widget");
    reveal_strlit("window");
    assert("alert"@ != "select"@) by {
        assert("alert"@.len() != "select"@.len());
    }
    assert("alertdialog"@ != "select"@) by {
        assert("alertdialog"@.len() != "select"@.len());
    }
    assert("application"@ != "select"@) by {
        assert("application"@.len() != "select"@.len());
    }
    assert("article"@ != "select"@) by {
        assert("article"@.len() != "select"@.len());
    }
    assert("banner"@ != "select"@) by {
        assert("banner"@[0] != "select"@[0]);
    }
    assert("button"@ != "select"@) by {
        assert("button"@[0] != "select"@[0]);
    }
    assert("cell"@ != "select"@) by {
        assert("cell"@.len() != "select"@.len());
    }
    assert("checkbox"@ != "select"@) by {
        assert("checkbox"@.len() != "select"@.len());
    }
    assert("columnheader"@ != "select"@) by {
        assert("columnheader"@.len() != "select"@.len());
    }
    assert("combobox"@ != "select"@) by {
        assert("combobox"@.len() != "select"@.len());
    }
    assert("complementary"@ != "select"@) by {
        assert("complementary"@.len() != "select"@.len());
    }
    assert("contentinfo"@ != "select"@) by {
        assert("contentinfo"@.len() != "select"@.len());
    }
    assert("definition"@ != "select"@) by {
        assert("definition"@.len() != "select"@.len());
    }
    assert("dialog"@ != "select"@) by {
        assert("dialog"@[0] != "select"@[0]);
    }
    assert("directory"@ != "select"@) by {
        assert("directory"@.len() != "select"@.len());
    }
    assert("document"@ != "select"@) by {
        assert("document"@.len() != "select"@.len());
    }
    assert("feed"@ != "select"@) by {
        assert("feed"@.len() != "select"@.len());
    }
    assert("figure"@ != "select"@) by {
        assert("figure"@[0] != "select"@[0]);
    }
    assert("form"@ != "select"@) by {
        assert("form"@.len() != "select"@.len());
    }
    assert("grid"@ != "select"@) by {
        assert("grid"@.len() != "select"@.len());
    }
    assert("gridcell"@ != "select"@) by {
        assert("gridcell"@.len() != "select"@.len());
    }
    assert("group"@ != "select"@) by {
        assert("group"@.len() != "select"@.len());
    }
    assert("heading"@ != "select"@) by {
        assert("heading"@.len() != "select"@.len());
    }
    assert("img"@ != "select"@) by {
        assert("img"@.len() != "select"@.len());
    }
    assert("link"@ != "select"@) by {
        assert("link"@.len() != "select"@.len());
    }
    assert("list"@ != "select"@) by {
        assert("list"@.len() != "select"@.len());
    }
    assert("listbox"@ != "select"@) by {
        assert("listbox"@.len() != "select"@.len());
    }
    assert("listitem"@ != "select"@) by {
        assert("listitem"@.len() != "select"@.len());
    }
    assert("log"@ != "select"@) by {
        assert("log"@.len() != "select"@.len());
    }
    assert("main"@ != "select"@) by {
        assert("main"@.len() != "select"@.len());
    }
    assert("marquee"@ != "select"@) by {
        assert("marquee"@.len() != "select"@.len());
    }
    assert("math"@ != "select"@) by {
        assert("math"@.len() != "select"@.len());
    }
    assert("menu"@ != "select"@) by {
        assert("menu"@.len() != "select"@.len());
    }
    assert("menubar"@ != "select"@) by {
        assert("menubar"@.len() != "select"@.len());
    }
    assert("menuitem"@ != "select"@) by {
        assert("menuitem"@.len() != "select"@.len());
    }
    assert("menuitemcheckbox"@ != "select"@) by {
        assert("menuitemcheckbox"@.len() != "select"@.len());
    }
    assert("menuitemradio"@ != "select"@) by {
        assert("menuitemradio"@.len() != "select"@.len());
    }
    assert("meter"@ != "select"@) by {
        assert("meter"@.len() != "select"@.len());
    }
    assert("navigation"@ != "select"@) by {
        assert("navigation"@.len() != "select"@.len());
    }
    assert("none"@ != "select"@) by {
        assert("none"@.len() != "select"@.len());
    }
    assert("note"@ != "select"@) by {
        assert("note"@.len() != "select"@.len());
    }
    assert("option"@ != "select"@) by {
        assert("option"@[0] != "select"@[0]);
    }
    assert("presentation"@ != "select"@) by {
        assert("presentation"@.len() != "select"@.len());
    }
    assert("progressbar"@ != "select"@) by {
        assert("progressbar"@.len() != "select"@.len());
    }
    assert("radio"@ != "select"@) by {
        assert("radio"@.len() != "select"@.len());
    }
    assert("radiogroup"@ != "select"@) by {
        assert("radiogroup"@.len() != "select"@.len());
    }
    assert("region"@ != "select"@) by {
        assert("region"@[0] != "select"@[0]);
    }
    assert("row"@ != "select"@) by {
        assert("row"@.len() != "select"@.len());
    }
    assert("rowgroup"@ != "select"@) by {
        assert("rowgroup"@.len() != "select"@.len());
    }
    assert("rowheader"@ != "select"@) by {
        assert("rowheader"@.len() != "select"@.len());
    }
    assert("scrollbar"@ != "select"@) by {
        assert("scrollbar"@.len() != "select"@.len());
    }
    assert("search"@ != "select"@) by {
        assert("search"@[2] != "select"@[2]);
    }
    assert("searchbox"@ != "select"@) by {
        assert("searchbox"@.len() != "select"@.len());
    }
    assert("separator"@ != "select"@) by {
        assert("separator"@.len() != "select"@.len());
    }
    assert("slider"@ != "select"@) by {
        assert("slider"@[1] != "select"@[1]);
    }
    assert("spinbutton"@ != "select"@) by {
        assert("spinbutton"@.len() != "select"@.len());
    }
    assert("status"@ != "select"@) by {
        assert("status"@[1] != "select"@[1]);
    }
    assert("switch"@ != "select"@) by {
        assert("switch"@[1] != "select"@[1]);
    }
    assert("tab"@ != "select"@) by {
        assert("tab"@.len() != "select"@.len());
    }
    assert("table"@ != "select"@) by {
        assert("table"@.len() != "select"@.len());
    }
    assert("tablist"@ != "select"@) by {
        assert("tablist"@.len() != "select"@.len());
    }
    assert("tabpanel"@ != "select"@) by {
        assert("tabpanel"@.len() != "select"@.len());
    }
    assert("term"@ != "select"@) by {
        assert("term"@.len() != "select"@.len());
    }
    assert("textbox"@ != "select"@) by {
        assert("textbox"@.len() != "select"@.len());
    }
    assert("timer"@ != "select"@) by {
        assert("timer"@.len() != "select"@.len());
    }
    assert("toolbar"@ != "select"@) by {
        assert("toolbar"@.len() != "select"@.len());
    }
    assert("tooltip"@ != "select"@) by {
        assert("tooltip"@.len() != "select"@.len());
    }
    assert("tree"@ != "select"@) by {
        assert("tree"@.len() != "select"@.len());
    }
    assert("treegrid"@ != "select"@) by {
        assert("treegrid"@.len() != "select"@.len());
    }
    assert("treeitem"@ != "select"@) by {
        assert("treeitem"@.len() != "select"@.len());
    }
    assert("command"@ != "select"@) by {
        assert("command"@.len() != "select"@.len());
    }
    assert("composite"@ != "select"@) by {
        assert("composite"@.len() != "select"@.len());
    }
    assert("input"@ != "select"@) by {
        assert("input"@.len() != "select"@.len());
    }
    assert("landmark"@ != "select"@) by {
        assert("landmark"@.len() != "select"@.len());
    }
    assert("range"@ != "select"@) by {
        assert("range"@.len() != "select"@.len());
    }
    assert("roletype"@ != "select"@) by {
        assert("roletype"@.len() != "select"@.len());
    }
    assert("section"@ != "select"@) by {
        assert("section"@.len() != "select"@.len());
    }
    assert("sectionhead"@ != "select"@) by {
        assert("sectionhead"@.len() != "select"@.len());
    }
    assert("structure"@ != "select"@) by {
        assert("structure"@.len() != "select"@.len());
    }
    assert("widget"@ != "select"@) by {
        assert("widget"@[0] != "select"@[0]);
    }
    assert("window"@ != "select"@) by {
        assert("window"@[0] != "select"@[0]);
    }
}

proof fn role_name_unique_structure(b: Role)
    requires
        b.name_spec() == "structure"@,
    ensures
        b == Role::Structure,
{
    reveal_strlit("alert");
    reveal_strlit("alertdialog");
    reveal_strlit("application");
    reveal_strlit("article");
    reveal_strlit("banner");
    reveal_strlit("button");
    reveal_strlit("cell");
    reveal_strlit("checkbox");
    reveal_strlit("columnheader");
    reveal_strlit("combobox");
    reveal_strlit("complementary");
    reveal_strlit("contentinfo");
    reveal_strlit("definition");
    reveal_strlit("dialog");
    reveal_strlit("directory");
    reveal_strlit("document");
    reveal_strlit("feed");
    reveal_strlit("figure");
    reveal_strlit("form");
    reveal_strlit("grid");
    reveal_strlit("gridcell");
    reveal_strlit("group");
    reveal_strlit("heading");
    reveal_strlit("img");
    reveal_strlit("link");
    reveal_strlit("list");
    reveal_strlit("listbox");
    reveal_strlit("listitem");
    reveal_strlit("log");
    reveal_strlit("main");
    reveal_strlit("marquee");
    reveal_strlit("math");
    reveal_strlit("menu");
    reveal_strlit("menubar");
    reveal_strlit("menuitem");
    reveal_strlit("menuitemcheckbox");
    reveal_strlit("menuitemradio");
    reveal_strlit("meter");
    reveal_strlit("navigation");
    reveal_strlit("none");
    reveal_strlit("note");
    reveal_strlit("option");
    reveal_strlit("presentation");
    reveal_strlit("progressbar");
    reveal_strlit("radio");
    reveal_strlit("radiogroup");
    reveal_strlit("region");
    reveal_strlit("row");
    reveal_strlit("rowgroup");
    reveal_strlit("rowheader");
    reveal_strlit("scrollbar");
    reveal_strlit("search");
    reveal_strlit("searchbox");
    reveal_strlit("separator");
    reveal_strlit("slider");
    reveal_strlit("spinbutton");
    reveal_strlit("status");
    reveal_strlit("switch");
    reveal_strlit("tab");
    reveal_strlit("table");
    reveal_strlit("tablist");
    reveal_strlit("tabpanel");
    reveal_strlit("term");
    reveal_strlit("textbox");
    reveal_strlit("timer");
    reveal_strlit("toolbar");
    reveal_strlit("tooltip");
    reveal_strlit("tree");
    reveal_strlit("treegrid");
    reveal_strlit("treeitem");
    reveal_strlit("command");
    reveal_strlit("composite");
    reveal_strlit("input");
    reveal_strlit("landmark");
    reveal_strlit("range");
    reveal_strlit("roletype");
    reveal_strlit("section");
    reveal_strlit("sectionhead");
    reveal_strlit("select");
    reveal_strlit("structure");
    reveal_strlit("widget");
    reveal_strlit("window");
    assert("alert"@ != "structure"@) by {
        assert("alert"@.len() != "structure"@.len());
    }
    assert("alertdialog"@ != "structure"@) by {
        assert("alertdialog"@.len() != "structure"@.len());
    }
    assert("application"@ != "structure"@) by {
        assert("application"@.len() != "structure"@.len());
    }
    assert("article"@ != "structure"@) by {
        assert("article"@.len() != "structure"@.len());
    }
    assert("banner"@ != "structure"@) by {
        assert("banner"@.len() != "structure"@.len());
    }
    assert("button"@ != "structure"@) by {
        assert("button"@.len() != "structure"@.len());
    }
    assert("cell"@ != "structure"@) by {
        assert("cell"@.len() != "structure"@.len());
    }
    assert("checkbox"@ != "structure"@) by {
        assert("checkbox"@.len() != "structure"@.len());
    }
    assert("columnheader"@ != "structure"@) by {
        assert("columnheader"@.len() != "structure"@.len());
    }
    assert("combobox"@ != "structure"@) by {
        assert("combobox"@.len() != "structure"@.len());
    }
    assert("complementary"@ != "structure"@) by {
        assert("complementary"@.len() != "structure"@.len());
    }
    assert("contentinfo"@ != "structure"@) by {
        assert("contentinfo"@.len() != "structure"@.len());
    }
    assert("definition"@ != "structure"@) by {
        assert("definition"@.len() != "structure"@.len());
    }
    assert("dialog"@ != "structure"@) by {
        assert("dialog"@.len() != "structure"@.len());
    }
    assert("directory"@ != "structure"@) by {
        assert("directory"@[0] != "structure"@[0]);
    }
    assert("document"@ != "structure"@) by {
        assert("document"@.len() != "structure"@.len());
    }
    assert("feed"@ != "structure"@) by {
        assert("feed"@.len() != "structure"@.len());
    }
    assert("figure"@ != "structure"@) by {
        assert("figure"@.len() != "structure"@.len());
    }
    assert("form"@ != "structure"@) by {
        assert("form"@.len() != "structure"@.len());
    }
    assert("grid"@ != "structure"@) by {
        assert("grid"@.len() != "structure"@.len());
    }
    assert("gridcell"@ != "structure"@) by {
        assert("gridcell"@.len() != "structure"@.len());
    }
    assert("group"@ != "structure"@) by {
        assert("group"@.len() != "structure"@.len());
    }
    assert("heading"@ != "structure"@) by {
        assert("heading"@.len() != "structure"@.len());
    }
    assert("img"@ != "structure"@) by {
        assert("img"@.len() != "structure"@.len());
    }
    assert("link"@ != "structure"@) by {
        assert("link"@.len() != "structure"@.len());
    }
    assert("list"@ != "structure"@) by {
        assert("list"@.len() != "structure"@.len());
    }
    assert("listbox"@ != "structure"@) by {
        assert("listbox"@.len() != "structure"@.len());
    }
    assert("listitem"@ != "structure"@) by {
        assert("listitem"@.len() != "structure"@.len());
    }
    assert("log"@ != "structure"@) by {
        assert("log"@.len() != "structure"@.len());
    }
    assert("main"@ != "structure"@) by {
        assert("main"@.len() != "structure"@.len());
    }
    assert("marquee"@ != "structure"@) by {
        assert("marquee"@.len() != "structure"@.len());
    }
    assert("math"@ != "structure"@) by {
        assert("math"@.len() != "structure"@.len());
    }
    assert("menu"@ != "structure"@) by {
        assert("menu"@.len() != "structure"@.len());
    }
    assert("menubar"@ != "structure"@) by {
        assert("menubar"@.len() != "structure"@.len());
    }
    assert("menuitem"@ != "structure"@) by {
        assert("menuitem"@.len() != "structure"@.len());
    }
    assert("menuitemcheckbox"@ != "structure"@) by {
        assert("menuitemcheckbox"@.len() != "structure"@.len());
    }
    assert("menuitemradio"@ != "structure"@) by {
        assert("menuitemradio"@.len() != "structure"@.len());
    }
    assert("meter"@ != "structure"@) by {
        assert("meter"@.len() != "structure"@.len());
    }
    assert("navigation"@ != "structure"@) by {
        assert("navigation"@.len() != "structure"@.len());
    }
    assert("none"@ != "structure"@) by {
        assert("none"@.len() != "structure"@.len());
    }
    assert("note"@ != "structure"@) by {
        assert("note"@.len() != "structure"@.len());
    }
    assert("option"@ != "structure"@) by {
        assert("option"@.len() != "structure"@.len());
    }
    assert("presentation"@ != "structure"@) by {
        assert("presentation"@.len() != "structure"@.len());
    }
    assert("progressbar"@ != "structure"@) by {
        assert("progressbar"@.len() != "structure"@.len());
    }
    assert("radio"@ != "structure"@) by {
        assert("radio"@.len() != "structure"@.len());
    }
    assert("radiogroup"@ != "structure"@) by {
        assert("radiogroup"@.len() != "structure"@.len());
    }
    assert("region"@ != "structure"@) by {
        assert("region"@.len() != "structure"@.len());
    }
    assert("row"@ != "structure"@) by {
        assert("row"@.len() != "structure"@.len());
    }
    assert("rowgroup"@ != "structure"@) by {
        assert("rowgroup"@.len() != "structure"@.len());
    }
    assert("rowheader"@ != "structure"@) by {
        assert("rowheader"@[0] != "structure"@[0]);
    }
    assert("scrollbar"@ != "structure"@) by {
        assert("scrollbar"@[1] != "structure"@[1]);
    }
    assert("search"@ != "structure"@) by {
        assert("search"@.len() != "structure"@.len());
    }
    assert("searchbox"@ != "structure"@) by {
        assert("searchbox"@[1] != "structure"@[1]);
    }
    assert("separator"@ != "structure"@) by {
        assert("separator"@[1] != "structure"@[1]);
    }
    assert("slider"@ != "structure"@) by {
        assert("slider"@.len() != "structure"@.len());
    }
    assert("spinbutton"@ != "structure"@) by {
        assert("spinbutton"@.len() != "structure"@.len());
    }
    assert("status"@ != "structure"@) by {
        assert("status"@.len() != "structure"@.len());
    }
    assert("switch"@ != "structure"@) by {
        assert("switch"@.len() != "structure"@.len());
    }
    assert("tab"@ != "structure"@) by {
        assert("tab"@.len() != "structure"@.len());
    }
    assert("table"@ != "structure"@) by {
        assert("table"@.len() != "structure"@.len());
    }
    assert("tablist"@ != "structure"@) by {
        assert("tablist"@.len() != "structure"@.len());
    }
    assert("tabpanel"@ != "structure"@) by {
        assert("tabpanel"@.len() != "structure"@.len());
    }
    assert("term"@ != "structure"@) by {
        assert("term"@.len() != "structure"@.len());
    }
    assert("textbox"@ != "structure"@) by {
        assert("textbox"@.len() != "structure"@.len());
    }
    assert("timer"@ != "structure"@) by {
        assert("timer"@.len() != "structure"@.len());
    }
    assert("toolbar"@ != "structure"@) by {
        assert("toolbar"@.len() != "structure"@.len());
    }
    assert("tooltip"@ != "structure"@) by {
        assert("tooltip"@.len() != "structure"@.len());
    }
    assert("tree"@ != "structure"@) by {
        assert("tree"@.len() != "structure"@.len());
    }
    assert("treegrid"@ != "structure"@) by {
        assert("treegrid"@.len() != "structure"@.len());
    }
    assert("treeitem"@ != "structure"@) by {
        assert("treeitem"@.len() != "structure"@.len());
    }
    assert("command"@ != "structure"@) by {
        assert("command"@.len() != "structure"@.len());
    }
    assert("composite"@ != "structure"@) by {
        assert("composite"@[0] != "structure"@[0]);
    }
    assert("input"@ != "structure"@) by {
        assert("input"@.len() != "structure"@.len());
    }
    assert("landmark"@ != "structure"@) by {
        assert("landmark"@.len() != "structure"@.len());
    }
    assert("range"@ != "structure"@) by {
        assert("range"@.len() != "structure"@.len());
    }
    assert("roletype"@ != "structure"@) by {
        assert("roletype"@.len() != "structure"@.len());
    }
    assert("section"@ != "structure"@) by {
        assert("section"@.len() != "structure"@.len());
    }
    assert("sectionhead"@ != "structure"@) by {
        assert("sectionhead"@.len() != "structure"@.len());
    }
    assert("select"@ != "structure"@) by {
        assert("select"@.len() != "structure"@.len());
    }
    assert("widget"@ != "structure"@) by {
        assert("widget"@.len() != "structure"@.len());
    }
    assert("window"@ != "structure"@) by {
        assert("window"@.len() != "structure"@.len());
    }
}

proof fn role_name_unique_widget(b: Role)
    requires
        b.name_spec() == "widget"@,
    ensures
        b == Role::Widget,
{
    reveal_strlit("alert");
    reveal_strlit("alertdialog");
    reveal_strlit("application");
    reveal_strlit("article");
    reveal_strlit("banner");
    reveal_strlit("button");
    reveal_strlit("cell");
    reveal_strlit("checkbox");
    reveal_strlit("columnheader");
    reveal_strlit("combobox");
    reveal_strlit("complementary");
    reveal_strlit("contentinfo");
    reveal_strlit("definition");
    reveal_strlit("dialog");
    reveal_strlit("directory");
    reveal_strlit("document");
    reveal_strlit("feed");
    reveal_strlit("figure");
    reveal_strlit("form");
    reveal_strlit("grid");
    reveal_strlit("gridcell");
    reveal_strlit("group");
    reveal_strlit("heading");
    reveal_strlit("img");
    reveal_strlit("link");
    reveal_strlit("list");
    reveal_strlit("listbox");
    reveal_strlit("listitem");
    reveal_strlit("log");
    reveal_strlit("main");
    reveal_strlit("marquee");
    reveal_strlit("math");
    reveal_strlit("menu");
    reveal_strlit("menubar");
    reveal_strlit("menuitem");
    reveal_strlit("menuitemcheckbox");
    reveal_strlit("menuitemradio");
    reveal_strlit("meter");
    reveal_strlit("navigation");
    reveal_strlit("none");
    reveal_strlit("note");
    reveal_strlit("option");
    reveal_strlit("presentation");
    reveal_strlit("progressbar");
    reveal_strlit("radio");
    reveal_strlit("radiogroup");
    reveal_strlit("region");
    reveal_strlit("row");
    reveal_strlit("rowgroup");
    reveal_strlit("rowheader");
    reveal_strlit("scrollbar");
    reveal_strlit("search");
    reveal_strlit("searchbox");
    reveal_strlit("separator");
    reveal_strlit("slider");
    reveal_strlit("spinbutton");
    reveal_strlit("status");
    reveal_strlit("switch");
    reveal_strlit("tab");
    reveal_strlit("table");
    reveal_strlit("tablist");
    reveal_strlit("tabpanel");
    reveal_strlit("term");
    reveal_strlit("textbox");
    reveal_strlit("timer");
    reveal_strlit("toolbar");
    reveal_strlit("tooltip");
    reveal_strlit("tree");
    reveal_strlit("treegrid");
    reveal_strlit("treeitem");
    reveal_strlit("command");
    reveal_strlit("composite");
    reveal_strlit("input");
    reveal_strlit("landmark");
    reveal_strlit("range");
    reveal_strlit("roletype");
    reveal_strlit("section");
    reveal_strlit("sectionhead");
    reveal_strlit("select");
    reveal_strlit("structure");
    reveal_strlit("widget");
    reveal_strlit("window");
    assert("alert"@ != "widget"@) by {
        assert("alert"@.len() != "widget"@.len());
    }
    assert("alertdialog"@ != "widget"@) by {
        assert("alertdialog"@.len() != "widget"@.len());
    }
    assert("application"@ != "widget"@) by {
        assert("application"@.len() != "widget"@.len());
    }
    assert("article"@ != "widget"@) by {
        assert("article"@.len() != "widget"@.len());
    }
    assert("banner"@ != "widget"@) by {
        assert("banner"@[0] != "widget"@[0]);
    }
    assert("button"@ != "widget"@) by {
        assert("button"@[0] != "widget"@[0]);
    }
    assert("cell"@ != "widget"@) by {
        assert("cell"@.len() != "widget"@.len());
    }
    assert("checkbox"@ != "widget"@) by {
        assert("checkbox"@.len() != "widget"@.len());
    }
    assert("columnheader"@ != "widget"@) by {
        assert("columnheader"@.len() != "widget"@.len());
    }
    assert("combobox"@ != "widget"@) by {
        assert("combobox"@.len() != "widget"@.len());
    }
    assert("complementary"@ != "widget"@) by {
        assert("complementary"@.len() != "widget"@.len());
    }
    assert("contentinfo"@ != "widget"@) by {
        assert("contentinfo"@.len() != "widget"@.len());
    }
    assert("definition"@ != "widget"@) by {
        assert("definition"@.len() != "widget"@.len());
    }
    assert("dialog"@ != "widget"@) by {
        assert("dialog"@[0] != "widget"@[0]);
    }
    assert("directory"@ != "widget"@) by {
        assert("directory"@.len() != "widget"@.len());
    }
    assert("document"@ != "widget"@) by {
        assert("document"@.len() != "widget"@.len());
    }
    assert("feed"@ != "widget"@) by {
        assert("feed"@.len() != "widget"@.len());
    }
    assert("figure"@ != "widget"@) by {
        assert("figure"@[0] != "widget"@[0]);
    }
    assert("form"@ != "widget"@) by {
        assert("form"@.len() != "widget"@.len());
    }
    assert("grid"@ != "widget"@) by {
        assert("grid"@.len() != "widget"@.len());
    }
    assert("gridcell"@ != "widget"@) by {
        assert("gridcell"@.len() != "widget"@.len());
    }
    assert("group"@ != "widget"@) by {
        assert("group"@.len() != "widget"@.len());
    }
    assert("heading"@ != "widget"@) by {
        assert("heading"@.len() != "widget"@.len());
    }
    assert("img"@ != "widget"@) by {
        assert("img"@.len() != "widget"@.len());
    }
    assert("link"@ != "widget"@) by {
        assert("link"@.len() != "widget"@.len());
    }
    assert("list"@ != "widget"@) by {
        assert("list"@.len() != "widget"@.len());
    }
    assert("listbox"@ != "widget"@) by {
        assert("listbox"@.len() != "widget"@.len());
    }
    assert("listitem"@ != "widget"@) by {
        assert("listitem"@.len() != "widget"@.len());
    }
    assert("log"@ != "widget"@) by {
        assert("log"@.len() != "widget"@.len());
    }
    assert("main"@ != "widget"@) by {
        assert("main"@.len() != "widget"@.len());
    }
    assert("marquee"@ != "widget"@) by {
        assert("marquee"@.len() != "widget"@.len());
    }
    assert("math"@ != "widget"@) by {
        assert("math"@.len() != "widget"@.len());
    }
    assert("menu"@ != "widget"@) by {
        assert("menu"@.len() != "widget"@.len());
    }
    assert("menubar"@ != "widget"@) by {
        assert("menubar"@.len() != "widget"@.len());
    }
    assert("menuitem"@ != "widget"@) by {
        assert("menuitem"@.len() != "widget"@.len());
    }
    assert("menuitemcheckbox"@ != "widget"@) by {
        assert("menuitemcheckbox"@.len() != "widget"@.len());
    }
    assert("menuitemradio"@ != "widget"@) by {
        assert("menuitemradio"@.len() != "widget"@.len());
    }
    assert("meter"@ != "widget"@) by {
        assert("meter"@.len() != "widget"@.len());
    }
    assert("navigation"@ != "widget"@) by {
        assert("navigation"@.len() != "widget"@.len());
    }
    assert("none"@ != "widget"@) by {
        assert("none"@.len() != "widget"@.len());
    }
    assert("note"@ != "widget"@) by {
        assert("note"@.len() != "widget"@.len());
    }
    assert("option"@ != "widget"@) by {
        assert("option"@[0] != "widget"@[0]);
    }
    assert("presentation"@ != "widget"@) by {
        assert("presentation"@.len() != "widget"@.len());
    }
    assert("progressbar"@ != "widget"@) by {
        assert("progressbar"@.len() != "widget"@.len());
    }
    assert("radio"@ != "widget"@) by {
        assert("radio"@.len() != "widget"@.len());
    }
    assert("radiogroup"@ != "widget"@) by {
        assert("radiogroup"@.len() != "widget"@.len());
    }
    assert("region"@ != "widget"@) by {
        assert("region"@[0] != "widget"@[0]);
    }
    assert("row"@ != "widget"@) by {
        assert("row"@.len() != "widget"@.len());
    }
    assert("rowgroup"@ != "widget"@) by {
        assert("rowgroup"@.len() != "widget"@.len());
    }
    assert("rowheader"@ != "widget"@) by {
        assert("rowheader"@.len() != "widget"@.len());
    }
    assert("scrollbar"@ != "widget"@) by {
        assert("scrollbar"@.len() != "widget"@.len());
    }
    assert("search"@ != "widget"@) by {
        assert("search"@[0] != "widget"@[0]);
    }
    assert("searchbox"@ != "widget"@) by {
        assert("searchbox"@.len() != "widget"@.len());
    }
    assert("separator"@ != "widget"@) by {
        assert("separator"@.len() != "widget"@.len());
    }
    assert("slider"@ != "widget"@) by {
        assert("slider"@[0] != "widget"@[0]);
    }
    assert("spinbutton"@ != "widget"@) by {
        assert("spinbutton"@.len() != "widget"@.len());
    }
    assert("status"@ != "widget"@) by {
        assert("status"@[0] != "widget"@[0]);
    }
    assert("switch"@ != "widget"@) by {
        assert("switch"@[0] != "widget"@[0]);
    }
    assert("tab"@ != "widget"@) by {
        assert("tab"@.len() != "widget"@.len());
    }
    assert("table"@ != "widget"@) by {
        assert("table"@.len() != "widget"@.len());
    }
    assert("tablist"@ != "widget"@) by {
        assert("tablist"@.len() != "widget"@.len());
    }
    assert("tabpanel"@ != "widget"@) by {
        assert("tabpanel"@.len() != "widget"@.len());
    }
    assert("term"@ != "widget"@) by {
        assert("term"@.len() != "widget"@.len());
    }
    assert("textbox"@ != "widget"@) by {
        assert("textbox"@.len() != "widget"@.len());
    }
    assert("timer"@ != "widget"@) by {
        assert("timer"@.len() != "widget"@.len());
    }
    assert("toolbar"@ != "widget"@) by {
        assert("toolbar"@.len() != "widget"@.len());
    }
    assert("tooltip"@ != "widget"@) by {
        assert("tooltip"@.len() != "widget"@.len());
    }
    assert("tree"@ != "widget"@) by {
        assert("tree"@.len() != "widget"@.len());
    }
    assert("treegrid"@ != "widget"@) by {
        assert("treegrid"@.len() != "widget"@.len());
    }
    assert("treeitem"@ != "widget"@) by {
        assert("treeitem"@.len() != "widget"@.len());
    }
    assert("command"@ != "widget"@) by {
        assert("command"@.len() != "widget"@.len());
    }
    assert("composite"@ != "widget"@) by {
        assert("composite"@.len() != "widget"@.len());
    }
    assert("input"@ != "widget"@) by {
        assert("input"@.len() != "widget"@.len());
    }
    assert("landmark"@ != "widget"@) by {
        assert("landmark"@.len() != "widget"@.len());
    }
    assert("range"@ != "widget"@) by {
        assert("range"@.len() != "widget"@.len());
    }
    assert("roletype"@ != "widget"@) by {
        assert("roletype"@.len() != "widget"@.len());
    }
    assert("section"@ != "widget"@) by {
        assert("section"@.len() != "widget"@.len());
    }
    assert("sectionhead"@ != "widget"@) by {
        assert("sectionhead"@.len() != "widget"@.len());
    }
    assert("select"@ != "widget"@) by {
        assert("select"@[0] != "widget"@[0]);
    }
    assert("structure"@ != "widget"@) by {
        assert("structure"@.len() != "widget"@.len());
    }
    assert("window"@ != "widget"@) by {
        assert("window"@[2] != "widget"@[2]);
    }
}

proof fn role_name_unique_window(b: Role)
    requires
        b.name_spec() == "window"@,
    ensures
        b == Role::Window,
{
    reveal_strlit("alert");
    reveal_strlit("alertdialog");
    reveal_strlit("application");
    reveal_strlit("article");
    reveal_strlit("banner");
    reveal_strlit("button");
    reveal_strlit("cell");
    reveal_strlit("checkbox");
    reveal_strlit("columnheader");
    reveal_strlit("combobox");
    reveal_strlit("complementary");
    reveal_strlit("contentinfo");
    reveal_strlit("definition");
    reveal_strlit("dialog");
    reveal_strlit("directory");
    reveal_strlit("document");
    reveal_strlit("feed");
    reveal_strlit("figure");
    reveal_strlit("form");
    reveal_strlit("grid");
    reveal_strlit("gridcell");
    reveal_strlit("group");
    reveal_strlit("heading");
    reveal_strlit("img");
    reveal_strlit("link");
    reveal_strlit("list");
    reveal_strlit("listbox");
    reveal_strlit("listitem");
    reveal_strlit("log");
    reveal_strlit("main");
    reveal_strlit("marquee");
    reveal_strlit("math");
    reveal_strlit("menu");
    reveal_strlit("menubar");
    reveal_strlit("menuitem");
    reveal_strlit("menuitemcheckbox");
    reveal_strlit("menuitemradio");
    reveal_strlit("meter");
    reveal_strlit("navigation");
    reveal_strlit("none");
    reveal_strlit("note");
    reveal_strlit("option");
    reveal_strlit("presentation");
    reveal_strlit("progressbar");
    reveal_strlit("radio");
    reveal_strlit("radiogroup");
    reveal_strlit("region");
    reveal_strlit("row");
    reveal_strlit("rowgroup");
    reveal_strlit("rowheader");
    reveal_strlit("scrollbar");
    reveal_strlit("search");
    reveal_strlit("searchbox");
    reveal_strlit("separator");
    reveal_strlit("slider");
    reveal_strlit("spinbutton");
    reveal_strlit("status");
    reveal_strlit("switch");
    reveal_strlit("tab");
    reveal_strlit("table");
    reveal_strlit("tablist");
    reveal_strlit("tabpanel");
    reveal_strlit("term");
    reveal_strlit("textbox");
    reveal_strlit("timer");
    reveal_strlit("toolbar");
    reveal_strlit("tooltip");
    reveal_strlit("tree");
    reveal_strlit("treegrid");
    reveal_strlit("treeitem");
    reveal_strlit("command");
    reveal_strlit("composite");
    reveal_strlit("input");
    reveal_strlit("landmark");
    reveal_strlit("range");
    reveal_strlit("roletype");
    reveal_strlit("section");
    reveal_strlit("sectionhead");
    reveal_strlit("select");
    reveal_strlit("structure");
    reveal_strlit("widget");
    reveal_strlit("window");
    assert("alert"@ != "window"@) by {
        assert("alert"@.len() != "window"@.len());
    }
    assert("alertdialog"@ != "window"@) by {
        assert("alertdialog"@.len() != "window"@.len());
    }
    assert("application"@ != "window"@) by {
        assert("application"@.len() != "window"@.len());
    }
    assert("article"@ != "window"@) by {
        assert("article"@.len() != "window"@.len());
    }
    assert("banner"@ != "window"@) by {
        assert("banner"@[0] != "window"@[0]);
    }
    assert("button"@ != "window"@) by {
        assert("button"@[0] != "window"@[0]);
    }
    assert("cell"@ != "window"@) by {
        assert("cell"@.len() != "window"@.len());
    }
    assert("checkbox"@ != "window"@) by {
        assert("checkbox"@.len() != "window"@.len());
    }
    assert("columnheader"@ != "window"@) by {
        assert("columnheader"@.len() != "window"@.len());
    }
    assert("combobox"@ != "window"@) by {
        assert("combobox"@.len() != "window"@.len());
    }
    assert("complementary"@ != "window"@) by {
        assert("complementary"@.len() != "window"@.len());
    }
    assert("contentinfo"@ != "window"@) by {
        assert("contentinfo"@.len() != "window"@.len());
    }
    assert("definition"@ != "window"@) by {
        assert("definition"@.len() != "window"@.len());
    }
    assert("dialog"@ != "window"@) by {
        assert("dialog"@[0] != "window"@[0]);
    }
    assert("directory"@ != "window"@) by {
        assert("directory"@.len() != "window"@.len());
    }
    assert("document"@ != "window"@) by {
        assert("document"@.len() != "window"@.len());
    }
    assert("feed"@ != "window"@) by {
        assert("feed"@.len() != "window"@.len());
    }
    assert("figure"@ != "window"@) by {
        assert("figure"@[0] != "window"@[0]);
    }
    assert("form"@ != "window"@) by {
        assert("form"@.len() != "window"@.len());
    }
    assert("grid"@ != "window"@) by {
        assert("grid"@.len() != "window"@.len());
    }
    assert("gridcell"@ != "window"@) by {
        assert("gridcell"@.len() != "window"@.len());
    }
    assert("group"@ != "window"@) by {
        assert("group"@.len() != "window"@.len());
    }
    assert("heading"@ != "window"@) by {
        assert("heading"@.len() != "window"@.len());
    }
    assert("img"@ != "window"@) by {
        assert("img"@.len() != "window"@.len());
    }
    assert("link"@ != "window"@) by {
        assert("link"@.len() != "window"@.len());
    }
    assert("list"@ != "window"@) by {
        assert("list"@.len() != "window"@.len());
    }
    assert("listbox"@ != "window"@) by {
        assert("listbox"@.len() != "window"@.len());
    }
    assert("listitem"@ != "window"@) by {
        assert("listitem"@.len() != "window"@.len());
    }
    assert("log"@ != "window"@) by {
        assert("log"@.len() != "window"@.len());
    }
    assert("main"@ != "window"@) by {
        assert("main"@.len() != "window"@.len());
    }
    assert("marquee"@ != "window"@) by {
        assert("marquee"@.len() != "window"@.len());
    }
    assert("math"@ != "window"@) by {
        assert("math"@.len() != "window"@.len());
    }
    assert("menu"@ != "window"@) by {
        assert("menu"@.len() != "window"@.len());
    }
    assert("menubar"@ != "window"@) by {
        assert("menubar"@.len() != "window"@.len());
    }
    assert("menuitem"@ != "window"@) by {
        assert("menuitem"@.len() != "window"@.len());
    }
    assert("menuitemcheckbox"@ != "window"@) by {
        assert("menuitemcheckbox"@.len() != "window"@.len());
    }
    assert("menuitemradio"@ != "window"@) by {
        assert("menuitemradio"@.len() != "window"@.len());
    }
    assert("meter"@ != "window"@) by {
        assert("meter"@.len() != "window"@.len());
    }
    assert("navigation"@ != "window"@) by {
        assert("navigation"@.len() != "window"@.len());
    }
    assert("none"@ != "window"@) by {
        assert("none"@.len() != "window"@.len());
    }
    assert("note"@ != "window"@) by {
        assert("note"@.len() != "window"@.len());
    }
    assert("option"@ != "window"@) by {
        assert("option"@[0] != "window"@[0]);
    }
    assert("presentation"@ != "window"@) by {
        assert("presentation"@.len() != "window"@.len());
    }
    assert("progressbar"@ != "window"@) by {
        assert("progressbar"@.len() != "window"@.len());
    }
    assert("radio"@ != "window"@) by {
        assert("radio"@.len() != "window"@.len());
    }
    assert("radiogroup"@ != "window"@) by {
        assert("radiogroup"@.len() != "window"@.len());
    }
    assert("region"@ != "window"@) by {
        assert("region"@[0] != "window"@[0]);
    }
    assert("row"@ != "window"@) by {
        assert("row"@.len() != "window"@.len());
    }
    assert("rowgroup"@ != "window"@) by {
        assert("rowgroup"@.len() != "window"@.len());
    }
    assert("rowheader"@ != "window"@) by {
        assert("rowheader"@.len() != "window"@.len());
    }
    assert("scrollbar"@ != "window"@) by {
        assert("scrollbar"@.len() != "window"@.len());
    }
    assert("search"@ != "window"@) by {
        assert("search"@[0] != "window"@[0]);
    }
    assert("searchbox"@ != "window"@) by {
        assert("searchbox"@.len() != "window"@.len());
    }
    assert("separator"@ != "window"@) by {
        assert("separator"@.len() != "window"@.len());
    }
    assert("slider"@ != "window"@) by {
        assert("slider"@[0] != "window"@[0]);
    }
    assert("spinbutton"@ != "window"@) by {
        assert("spinbutton"@.len() != "window"@.len());
    }
    assert("status"@ != "window"@) by {
        assert("status"@[0] != "window"@[0]);
    }
    assert("switch"@ != "window"@) by {
        assert("switch"@[0] != "window"@[0]);
    }
    assert("tab"@ != "window"@) by {
        assert("tab"@.len() != "window"@.len());
    }
    assert("table"@ != "window"@) by {
        assert("table"@.len() != "window"@.len());
    }
    assert("tablist"@ != "window"@) by {
        assert("tablist"@.len() != "window"@.len());
    }
    assert("tabpanel"@ != "window"@) by {
        assert("tabpanel"@.len() != "window"@.len());
    }
    assert("term"@ != "window"@) by {
        assert("term"@.len() != "window"@.len());
    }
    assert("textbox"@ != "window"@) by {
        assert("textbox"@.len() != "window"@.len());
    }
    assert("timer"@ != "window"@) by {
        assert("timer"@.len() != "window"@.len());
    }
    assert("toolbar"@ != "window"@) by {
        assert("toolbar"@.len() != "window"@.len());
    }
    assert("tooltip"@ != "window"@) by {
        assert("tooltip"@.len() != "window"@.len());
    }
    assert("tree"@ != "window"@) by {
        assert("tree"@.len() != "window"@.len());
    }
    assert("treegrid"@ != "window"@) by {
        assert("treegrid"@.len() != "window"@.len());
    }
    assert("treeitem"@ != "window"@) by {
        assert("treeitem"@.len() != "window"@.len());
    }
    assert("command"@ != "window"@) by {
        assert("command"@.len() != "window"@.len());
    }
    assert("composite"@ != "window"@) by {
        assert("composite"@.len() != "window"@.len());
    }
    assert("input"@ != "window"@) by {
        assert("input"@.len() != "window"@.len());
    }
    assert("landmark"@ != "window"@) by {
        assert("landmark"@.len() != "window"@.len());
    }
    assert("range"@ != "window"@) by {
        assert("range"@.len() != "window"@.len());
    }
    assert("roletype"@ != "window"@) by {
        assert("roletype"@.len() != "window"@.len());
    }
    assert("section"@ != "window"@) by {
        assert("section"@.len() != "window"@.len());
    }
    assert("sectionhead"@ != "window"@) by {
        assert("sectionhead"@.len() != "window"@.len());
    }
    assert("select"@ != "window"@) by {
        assert("select"@[0] != "window"@[0]);
    }
    assert("structure"@ != "window"@) by {
        assert("structure"@.len() != "window"@.len());
    }
    assert("widget"@ != "window"@) by {
        assert("widget"@[2] != "window"@[2]);
    }
}

/// No two roles share a name.
pub proof fn lemma_role_name_injective(a: Role, b: Role)
    requires
        a.name_spec() == b.name_spec(),
    ensures
        a == b,
{
    match a {
        Role::Alert => role_name_unique_alert(b),
        Role::AlertDialog => role_name_unique_alertdialog(b),
        Role::Application => role_name_unique_application(b),
        Role::Article => role_name_unique_article(b),
        Role::Banner => role_name_unique_banner(b),
        Role::Button => role_name_unique_button(b),
        Role::Cell => role_name_unique_cell(b),
        Role::Checkbox => role_name_unique_checkbox(b),
        Role::ColumnHeader => role_name_unique_columnheader(b),
        Role::Combobox => role_name_unique_combobox(b),
        Role::Complementary => role_name_unique_complementary(b),
        Role::ContentInfo => role_name_unique_contentinfo(b),
        Role::Definition => role_name_unique_definition(b),
        Role::Dialog => role_name_unique_dialog(b),
        Role::Directory => role_name_unique_directory(b),
        Role::Document => role_name_unique_document(b),
        Role::Feed => role_name_unique_feed(b),
        Role::Figure => role_name_unique_figure(b),
        Role::Form => role_name_unique_form(b),
        Role::Grid => role_name_unique_grid(b),
        Role::GridCell => role_name_unique_gridcell(b),
        Role::Group => role_name_unique_group(b),
        Role::Heading => role_name_unique_heading(b),
        Role::Img => role_name_unique_img(b),
        Role::Link => role_name_unique_link(b),
        Role::List => role_name_unique_list(b),
        Role::ListBox => role_name_unique_listbox(b),
        Role::ListItem => role_name_unique_listitem(b),
        Role::Log => role_name_unique_log(b),
        Role::Main => role_name_unique_main(b),
        Role::Marquee => role_name_unique_marquee(b),
        Role::Math => role_name_unique_math(b),
        Role::Menu => role_name_unique_menu(b),
        Role::Menubar => role_name_unique_menubar(b),
        Role::MenuItem => role_name_unique_menuitem(b),
        Role::MenuItemCheckbox => role_name_unique_menuitemcheckbox(b),
        Role::MenuItemRadio => role_name_unique_menuitemradio(b),
        Role::Meter => role_name_unique_meter(b),
        Role::Navigation => role_name_unique_navigation(b),
        Role::NoneRole => role_name_unique_none(b),
        Role::Note => role_name_unique_note(b),
        Role::Option => role_name_unique_option(b),
        Role::Presentation => role_name_unique_presentation(b),
        Role::ProgressBar => role_name_unique_progressbar(b),
        Role::Radio => role_name_unique_radio(b),
        Role::RadioGroup => role_name_unique_radiogroup(b),
        Role::Region => role_name_unique_region(b),
        Role::Row => role_name_unique_row(b),
        Role::RowGroup => role_name_unique_rowgroup(b),
        Role::RowHeader => role_name_unique_rowheader(b),
        Role::ScrollBar => role_name_unique_scrollbar(b),
        Role::Search => role_name_unique_search(b),
        Role::SearchBox => role_name_unique_searchbox(b),
        Role::Separator => role_name_unique_separator(b),
        Role::Slider => role_name_unique_slider(b),
        Role::SpinButton => role_name_unique_spinbutton(b),
        Role::Status => role_name_unique_status(b),
        Role::Switch => role_name_unique_switch(b),
        Role::Tab => role_name_unique_tab(b),
        Role::Table => role_name_unique_table(b),
        Role::TabList => role_name_unique_tablist(b),
        Role::TabPanel => role_name_unique_tabpanel(b),
        Role::Term => role_name_unique_term(b),
        Role::TextBox => role_name_unique_textbox(b),
        Role::Timer => role_name_unique_timer(b),
        Role::Toolbar => role_name_unique_toolbar(b),
        Role::Tooltip => role_name_unique_tooltip(b),
        Role::Tree => role_name_unique_tree(b),
        Role::TreeGrid => role_name_unique_treegrid(b),
        Role::TreeItem => role_name_unique_treeitem(b),
        Role::Command => role_name_unique_command(b),
        Role::Composite => role_name_unique_composite(b),
        Role::Input => role_name_unique_input(b),
        Role::Landmark => role_name_unique_landmark(b),
        Role::Range => role_name_unique_range(b),
        Role::Roletype => role_name_unique_roletype(b),
        Role::Section => role_name_unique_section(b),
        Role::Sectionhead => role_name_unique_sectionhead(b),
        Role::Select => role_name_unique_select(b),
        Role::Structure => role_name_unique_structure(b),
        Role::Widget => role_name_unique_widget(b),
        Role::Window => role_name_unique_window(b),
    }
}

/// A role whose name is `s` exists, namely `r`.
pub proof fn lemma_role_named_is(s: Seq<char>, r: Role)
    requires
        r.name_spec() == s,
    ensures
        role_named(s) == Some(r),
{
    assert(exists|ro: Role| ro.name_spec() == s);
    let c = choose|ro: Role| ro.name_spec() == s;
    lemma_role_name_injective(c, r);
}

impl Role {
    /// The attribute value this role is written as.
    pub open spec fn name_spec(self) -> Seq<char> {
        match self {
            Role::Alert => "alert"@,
            Role::AlertDialog => "alertdialog"@,
            Role::Application => "application"@,
            Role::Article => "article"@,
            Role::Banner => "banner"@,
            Role::Button => "button"@,
            Role::Cell => "cell"@,
            Role::Checkbox => "checkbox"@,
            Role::ColumnHeader => "columnheader"@,
            Role::Combobox => "combobox"@,
            Role::Complementary => "complementary"@,
            Role::ContentInfo => "contentinfo"@,
            Role::Definition => "definition"@,
            Role::Dialog => "dialog"@,
            Role::Directory => "directory"@,
            Role::Document => "document"@,
            Role::Feed => "feed"@,
            Role::Figure => "figure"@,
            Role::Form => "form"@,
            Role::Grid => "grid"@,
            Role::GridCell => "gridcell"@,
            Role::Group => "group"@,
            Role::Heading => "heading"@,
            Role::Img => "img"@,
            Role::Link => "link"@,
            Role::List => "list"@,
            Role::ListBox => "listbox"@,
            Role::ListItem => "listitem"@,
            Role::Log => "log"@,
            Role::Main => "main"@,
            Role::Marquee => "marquee"@,
            Role::Math => "math"@,
            Role::Menu => "menu"@,
            Role::Menubar => "menubar"@,
            Role::MenuItem => "menuitem"@,
            Role::MenuItemCheckbox => "menuitemcheckbox"@,
            Role::MenuItemRadio => "menuitemradio"@,
            Role::Meter => "meter"@,
            Role::Navigation => "navigation"@,
            Role::NoneRole => "none"@,
            Role::Note => "note"@,
            Role::Option => "option"@,
            Role::Presentation => "presentation"@,
            Role::ProgressBar => "progressbar"@,
            Role::Radio => "radio"@,
            Role::RadioGroup => "radiogroup"@,
            Role::Region => "region"@,
            Role::Row => "row"@,
            Role::RowGroup => "rowgroup"@,
            Role::RowHeader => "rowheader"@,
            Role::ScrollBar => "scrollbar"@,
            Role::Search => "search"@,
            Role::SearchBox => "searchbox"@,
            Role::Separator => "separator"@,
            Role::Slider => "slider"@,
            Role::SpinButton => "spinbutton"@,
            Role::Status => "status"@,
            Role::Switch => "switch"@,
            Role::Tab => "tab"@,
            Role::Table => "table"@,
            Role::TabList => "tablist"@,
            Role::TabPanel => "tabpanel"@,
            Role::Term => "term"@,
            Role::TextBox => "textbox"@,
            Role::Timer => "timer"@,
            Role::Toolbar => "toolbar"@,
            Role::Tooltip => "tooltip"@,
            Role::Tree => "tree"@,
            Role::TreeGrid => "treegrid"@,
            Role::TreeItem => "treeitem"@,
            Role::Command => "command"@,
            Role::Composite => "composite"@,
            Role::Input => "input"@,
            Role::Landmark => "landmark"@,
            Role::Range => "range"@,
            Role::Roletype => "roletype"@,
            Role::Section => "section"@,
            Role::Sectionhead => "sectionhead"@,
            Role::Select => "select"@,
            Role::Structure => "structure"@,
            Role::Widget => "widget"@,
            Role::Window => "window"@,
        }
    }

    /// The attribute value this role is written as.
    pub fn name(&self) -> (r: &'static str)
        ensures
            r@ == self.name_spec(),
    {
        match self {
            Role::Alert => "alert",
            Role::AlertDialog => "alertdialog",
            Role::Application => "application",
            Role::Article => "article",
            Role::Banner => "banner",
            Role::Button => "button",
            Role::Cell => "cell",
            Role::Checkbox => "checkbox",
            Role::ColumnHeader => "columnheader",
            Role::Combobox => "combobox",
            Role::Complementary => "complementary",
            Role::ContentInfo => "contentinfo",
            Role::Definition => "definition",
            Role::Dialog => "dialog",
            Role::Directory => "directory",
            Role::Document => "document",
            Role::Feed => "feed",
            Role::Figure => "figure",
            Role::Form => "form",
            Role::Grid => "grid",
            Role::GridCell => "gridcell",
            Role::Group => "group",
            Role::Heading => "heading",
            Role::Img => "img",
            Role::Link => "link",
            Role::List => "list",
            Role::ListBox => "listbox",
            Role::ListItem => "listitem",
            Role::Log => "log",
            Role::Main => "main",
            Role::Marquee => "marquee",
            Role::Math => "math",
            Role::Menu => "menu",
            Role::Menubar => "menubar",
            Role::MenuItem => "menuitem",
            Role::MenuItemCheckbox => "menuitemcheckbox",
            Role::MenuItemRadio => "menuitemradio",
            Role::Meter => "meter",
            Role::Navigation => "navigation",
            Role::NoneRole => "none",
            Role::Note => "note",
            Role::Option => "option",
            Role::Presentation => "presentation",
            Role::ProgressBar => "progressbar",
            Role::Radio => "radio",
            Role::RadioGroup => "radiogroup",
            Role::Region => "region",
            Role::Row => "row",
            Role::RowGroup => "rowgroup",
            Role::RowHeader => "rowheader",
            Role::ScrollBar => "scrollbar",
            Role::Search => "search",
            Role::SearchBox => "searchbox",
            Role::Separator => "separator",
            Role::Slider => "slider",
            Role::SpinButton => "spinbutton",
            Role::Status => "status",
            Role::Switch => "switch",
            Role::Tab => "tab",
            Role::Table => "table",
            Role::TabList => "tablist",
            Role::TabPanel => "tabpanel",
            Role::Term => "term",
            Role::TextBox => "textbox",
            Role::Timer => "timer",
            Role::Toolbar => "toolbar",
            Role::Tooltip => "tooltip",
            Role::Tree => "tree",
            Role::TreeGrid => "treegrid",
            Role::TreeItem => "treeitem",
            Role::Command => "command",
            Role::Composite => "composite",
            Role::Input => "input",
            Role::Landmark => "landmark",
            Role::Range => "range",
            Role::Roletype => "roletype",
            Role::Section => "section",
            Role::Sectionhead => "sectionhead",
            Role::Select => "select",
            Role::Structure => "structure",
            Role::Widget => "widget",
            Role::Window => "window",
        }
    }

    /// Looks a role name up: `Some` exactly for the names of the roles of
    /// the table, `None` for every other string.
    pub fn from_str(name: &str) -> (r: Option<Role>)
        ensures
            r == role_named(name@),
    {
        if str_eq(name, "alert") {
            proof {
                lemma_role_named_is(name@, Role::Alert);
            }
            return Some(Role::Alert);
        }
        if str_eq(name, "alertdialog") {
            proof {
                lemma_role_named_is(name@, Role::AlertDialog);
            }
            return Some(Role::AlertDialog);
        }
        if str_eq(name, "application") {
            proof {
                lemma_role_named_is(name@, Role::Application);
            }
            return Some(Role::Application);
        }
        if str_eq(name, "article") {
            proof {
                lemma_role_named_is(name@, Role::Article);
            }
            return Some(Role::Article);
        }
        if str_eq(name, "banner") {
            proof {
                lemma_role_named_is(name@, Role::Banner);
            }
            return Some(Role::Banner);
        }
        if str_eq(name, "button") {
            proof {
                lemma_role_named_is(name@, Role::Button);
            }
            return Some(Role::Button);
        }
        if str_eq(name, "cell") {
            proof {
                lemma_role_named_is(name@, Role::Cell);
            }
            return Some(Role::Cell);
        }
        if str_eq(name, "checkbox") {
            proof {
                lemma_role_named_is(name@, Role::Checkbox);
            }
            return Some(Role::Checkbox);
        }
        if str_eq(name, "columnheader") {
            proof {
                lemma_role_named_is(name@, Role::ColumnHeader);
            }
            return Some(Role::ColumnHeader);
        }
        if str_eq(name, "combobox") {
            proof {
                lemma_role_named_is(name@, Role::Combobox);
            }
            return Some(Role::Combobox);
        }
        if str_eq(name, "complementary") {
            proof {
                lemma_role_named_is(name@, Role::Complementary);
            }
            return Some(Role::Complementary);
        }
        if str_eq(name, "contentinfo") {
            proof {
                lemma_role_named_is(name@, Role::ContentInfo);
            }
            return Some(Role::ContentInfo);
        }
        if str_eq(name, "definition") {
            proof {
                lemma_role_named_is(name@, Role::Definition);
            }
            return Some(Role::Definition);
        }
        if str_eq(name, "dialog") {
            proof {
                lemma_role_named_is(name@, Role::Dialog);
            }
            return Some(Role::Dialog);
        }
        if str_eq(name, "directory") {
            proof {
                lemma_role_named_is(name@, Role::Directory);
            }
            return Some(Role::Directory);
        }
        if str_eq(name, "document") {
            proof {
                lemma_role_named_is(name@, Role::Document);
            }
            return Some(Role::Document);
        }
        if str_eq(name, "feed") {
            proof {
                lemma_role_named_is(name@, Role::Feed);
            }
            return Some(Role::Feed);
        }
        if str_eq(name, "figure") {
            proof {
                lemma_role_named_is(name@, Role::Figure);
            }
            return Some(Role::Figure);
        }
        if str_eq(name, "form") {
            proof {
                lemma_role_named_is(name@, Role::Form);
            }
            return Some(Role::Form);
        }
        if str_eq(name, "grid") {
            proof {
                lemma_role_named_is(name@, Role::Grid);
            }
            return Some(Role::Grid);
        }
        if str_eq(name, "gridcell") {
            proof {
                lemma_role_named_is(name@, Role::GridCell);
            }
            return Some(Role::GridCell);
        }
        if str_eq(name, "group") {
            proof {
                lemma_role_named_is(name@, Role::Group);
            }
            return Some(Role::Group);
        }
        if str_eq(name, "heading") {
            proof {
                lemma_role_named_is(name@, Role::Heading);
            }
            return Some(Role::Heading);
        }
        if str_eq(name, "img") {
            proof {
                lemma_role_named_is(name@, Role::Img);
            }
            return Some(Role::Img);
        }
        if str_eq(name, "link") {
            proof {
                lemma_role_named_is(name@, Role::Link);
            }
            return Some(Role::Link);
        }
        if str_eq(name, "list") {
            proof {
                lemma_role_named_is(name@, Role::List);
            }
            return Some(Role::List);
        }
        if str_eq(name, "listbox") {
            proof {
                lemma_role_named_is(name@, Role::ListBox);
            }
            return Some(Role::ListBox);
        }
        if str_eq(name, "listitem") {
            proof {
                lemma_role_named_is(name@, Role::ListItem);
            }
            return Some(Role::ListItem);
        }
        if str_eq(name, "log") {
            proof {
                lemma_role_named_is(name@, Role::Log);
            }
            return Some(Role::Log);
        }
        if str_eq(name, "main") {
            proof {
                lemma_role_named_is(name@, Role::Main);
            }
            return Some(Role::Main);
        }
        if str_eq(name, "marquee") {
            proof {
                lemma_role_named_is(name@, Role::Marquee);
            }
            return Some(Role::Marquee);
        }
        if str_eq(name, "math") {
            proof {
                lemma_role_named_is(name@, Role::Math);
            }
            return Some(Role::Math);
        }
        if str_eq(name, "menu") {
            proof {
                lemma_role_named_is(name@, Role::Menu);
            }
            return Some(Role::Menu);
        }
        if str_eq(name, "menubar") {
            proof {
                lemma_role_named_is(name@, Role::Menubar);
            }
            return Some(Role::Menubar);
        }
        if str_eq(name, "menuitem") {
            proof {
                lemma_role_named_is(name@, Role::MenuItem);
            }
            return Some(Role::MenuItem);
        }
        if str_eq(name, "menuitemcheckbox") {
            proof {
                lemma_role_named_is(name@, Role::MenuItemCheckbox);
            }
            return Some(Role::MenuItemCheckbox);
        }
        if str_eq(name, "menuitemradio") {
            proof {
                lemma_role_named_is(name@, Role::MenuItemRadio);
            }
            return Some(Role::MenuItemRadio);
        }
        if str_eq(name, "meter") {
            proof {
                lemma_role_named_is(name@, Role::Meter);
            }
            return Some(Role::Meter);
        }
        if str_eq(name, "navigation") {
            proof {
                lemma_role_named_is(name@, Role::Navigation);
            }
            return Some(Role::Navigation);
        }
        if str_eq(name, "none") {
            proof {
                lemma_role_named_is(name@, Role::NoneRole);
            }
            return Some(Role::NoneRole);
        }
        if str_eq(name, "note") {
            proof {
                lemma_role_named_is(name@, Role::Note);
            }
            return Some(Role::Note);
        }
        if str_eq(name, "option") {
            proof {
                lemma_role_named_is(name@, Role::Option);
            }
            return Some(Role::Option);
        }
        if str_eq(name, "presentation") {
            proof {
                lemma_role_named_is(name@, Role::Presentation);
            }
            return Some(Role::Presentation);
        }
        if str_eq(name, "progressbar") {
            proof {
                lemma_role_named_is(name@, Role::ProgressBar);
            }
            return Some(Role::ProgressBar);
        }
        if str_eq(name, "radio") {
            proof {
                lemma_role_named_is(name@, Role::Radio);
            }
            return Some(Role::Radio);
        }
        if str_eq(name, "radiogroup") {
            proof {
                lemma_role_named_is(name@, Role::RadioGroup);
            }
            return Some(Role::RadioGroup);
        }
        if str_eq(name, "region") {
            proof {
                lemma_role_named_is(name@, Role::Region);
            }
            return Some(Role::Region);
        }
        if str_eq(name, "row") {
            proof {
                lemma_role_named_is(name@, Role::Row);
            }
            return Some(Role::Row);
        }
        if str_eq(name, "rowgroup") {
            proof {
                lemma_role_named_is(name@, Role::RowGroup);
            }
            return Some(Role::RowGroup);
        }
        if str_eq(name, "rowheader") {
            proof {
                lemma_role_named_is(name@, Role::RowHeader);
            }
            return Some(Role::RowHeader);
        }
        if str_eq(name, "scrollbar") {
            proof {
                lemma_role_named_is(name@, Role::ScrollBar);
            }
            return Some(Role::ScrollBar);
        }
        if str_eq(name, "search") {
            proof {
                lemma_role_named_is(name@, Role::Search);
            }
            return Some(Role::Search);
        }
        if str_eq(name, "searchbox") {
            proof {
                lemma_role_named_is(name@, Role::SearchBox);
            }
            return Some(Role::SearchBox);
        }
        if str_eq(name, "separator") {
            proof {
                lemma_role_named_is(name@, Role::Separator);
            }
            return Some(Role::Separator);
        }
        if str_eq(name, "slider") {
            proof {
                lemma_role_named_is(name@, Role::Slider);
            }
            return Some(Role::Slider);
        }
        if str_eq(name, "spinbutton") {
            proof {
                lemma_role_named_is(name@, Role::SpinButton);
            }
            return Some(Role::SpinButton);
        }
        if str_eq(name, "status") {
            proof {
                lemma_role_named_is(name@, Role::Status);
            }
            return Some(Role::Status);
        }
        if str_eq(name, "switch") {
            proof {
                lemma_role_named_is(name@, Role::Switch);
            }
            return Some(Role::Switch);
        }
        if str_eq(name, "tab") {
            proof {
                lemma_role_named_is(name@, Role::Tab);
            }
            return Some(Role::Tab);
        }
        if str_eq(name, "table") {
            proof {
                lemma_role_named_is(name@, Role::Table);
            }
            return Some(Role::Table);
        }
        if str_eq(name, "tablist") {
            proof {
                lemma_role_named_is(name@, Role::TabList);
            }
            return Some(Role::TabList);
        }
        if str_eq(name, "tabpanel") {
            proof {
                lemma_role_named_is(name@, Role::TabPanel);
            }
            return Some(Role::TabPanel);
        }
        if str_eq(name, "term") {
            proof {
                lemma_role_named_is(name@, Role::Term);
            }
            return Some(Role::Term);
        }
        if str_eq(name, "textbox") {
            proof {
                lemma_role_named_is(name@, Role::TextBox);
            }
            return Some(Role::TextBox);
        }
        if str_eq(name, "timer") {
            proof {
                lemma_role_named_is(name@, Role::Timer);
            }
            return Some(Role::Timer);
        }
        if str_eq(name, "toolbar") {
            proof {
                lemma_role_named_is(name@, Role::Toolbar);
            }
            return Some(Role::Toolbar);
        }
        if str_eq(name, "tooltip") {
            proof {
                lemma_role_named_is(name@, Role::Tooltip);
            }
            return Some(Role::Tooltip);
        }
        if str_eq(name, "tree") {
            proof {
                lemma_role_named_is(name@, Role::Tree);
            }
            return Some(Role::Tree);
        }
        if str_eq(name, "treegrid") {
            proof {
                lemma_role_named_is(name@, Role::TreeGrid);
            }
            return Some(Role::TreeGrid);
        }
        if str_eq(name, "treeitem") {
            proof {
                lemma_role_named_is(name@, Role::TreeItem);
            }
            return Some(Role::TreeItem);
        }
        if str_eq(name, "command") {
            proof {
                lemma_role_named_is(name@, Role::Command);
            }
            return Some(Role::Command);
        }
        if str_eq(name, "composite") {
            proof {
                lemma_role_named_is(name@, Role::Composite);
            }
            return Some(Role::Composite);
        }
        if str_eq(name, "input") {
            proof {
                lemma_role_named_is(name@, Role::Input);
            }
            return Some(Role::Input);
        }
        if str_eq(name, "landmark") {
            proof {
                lemma_role_named_is(name@, Role::Landmark);
            }
            return Some(Role::Landmark);
        }
        if str_eq(name, "range") {
            proof {
                lemma_role_named_is(name@, Role::Range);
            }
            return Some(Role::Range);
        }
        if str_eq(name, "roletype") {
            proof {
                lemma_role_named_is(name@, Role::Roletype);
            }
            return Some(Role::Roletype);
        }
        if str_eq(name, "section") {
            proof {
                lemma_role_named_is(name@, Role::Section);
            }
            return Some(Role::Section);
        }
        if str_eq(name, "sectionhead") {
            proof {
                lemma_role_named_is(name@, Role::Sectionhead);
            }
            return Some(Role::Sectionhead);
        }
        if str_eq(name, "select") {
            proof {
                lemma_role_named_is(name@, Role::Select);
            }
            return Some(Role::Select);
        }
        if str_eq(name, "structure") {
            proof {
                lemma_role_named_is(name@, Role::Structure);
            }
            return Some(Role::Structure);
        }
        if str_eq(name, "widget") {
            proof {
                lemma_role_named_is(name@, Role::Widget);
            }
            return Some(Role::Widget);
        }
        if str_eq(name, "window") {
            proof {
                lemma_role_named_is(name@, Role::Window);
            }
            return Some(Role::Window);
        }
        assert forall|ro: Role| ro.name_spec() != name@ by {
        }
        None
    }

    /// Whether this role is an abstract WAI-ARIA role. Abstract roles exist
    /// for ontology purposes only and must never be used as a `role`
    /// attribute value on an element.
    pub open spec fn is_abstract_spec(self) -> bool {
        match self {
            Role::Command | Role::Composite | Role::Input | Role::Landmark | Role::Range | Role::Roletype | Role::Section | Role::Sectionhead | Role::Select | Role::Structure | Role::Widget | Role::Window => true,
            _ => false,
        }
    }

    /// Whether this role is an abstract WAI-ARIA role.
    pub fn is_abstract(&self) -> (r: bool)
        ensures
            r == self.is_abstract_spec(),
    {
        match self {
            Role::Command | Role::Composite | Role::Input | Role::Landmark | Role::Range | Role::Roletype | Role::Section | Role::Sectionhead | Role::Select | Role::Structure | Role::Widget | Role::Window => true,
            _ => false,
        }
    }

    /// The ARIA properties this role requires.
    pub open spec fn required_props_spec(self) -> Seq<Aria> {
        match self {
            Role::Checkbox => seq![Aria::Checked],
            Role::Combobox => seq![Aria::Controls, Aria::Expanded],
            Role::Heading => seq![Aria::Level],
            Role::Meter => seq![Aria::ValueNow, Aria::ValueMax, Aria::ValueMin],
            Role::MenuItemCheckbox => seq![Aria::Checked],
            Role::MenuItemRadio => seq![Aria::Checked],
            Role::Radio => seq![Aria::Checked],
            Role::ScrollBar => seq![Aria::Controls, Aria::ValueNow],
            Role::Slider => seq![Aria::ValueNow],
            Role::Switch => seq![Aria::Checked],
            _ => Seq::empty(),
        }
    }

    /// Required ARIA properties for this role per WAI-ARIA 1.2.
    pub fn required_aria_props(&self) -> (r: &'static [Aria])
        ensures
            r@ == self.required_props_spec(),
    {
        match self {
            Role::Checkbox => {
                let r: &'static [Aria] = &[Aria::Checked];
                proof {
                    assert(r@ =~= self.required_props_spec());
                }
                r
            },
            Role::Combobox => {
                let r: &'static [Aria] = &[Aria::Controls, Aria::Expanded];
                proof {
                    assert(r@ =~= self.required_props_spec());
                }
                r
            },
            Role::Heading => {
                let r: &'static [Aria] = &[Aria::Level];
                proof {
                    assert(r@ =~= self.required_props_spec());
                }
                r
            },
            Role::Meter => {
                let r: &'static [Aria] = &[Aria::ValueNow, Aria::ValueMax, Aria::ValueMin];
                proof {
                    assert(r@ =~= self.required_props_spec());
                }
                r
            },
            Role::MenuItemCheckbox => {
                let r: &'static [Aria] = &[Aria::Checked];
                proof {
                    assert(r@ =~= self.required_props_spec());
                }
                r
            },
            Role::MenuItemRadio => {
                let r: &'static [Aria] = &[Aria::Checked];
                proof {
                    assert(r@ =~= self.required_props_spec());
                }
                r
            },
            Role::Radio => {
                let r: &'static [Aria] = &[Aria::Checked];
                proof {
                    assert(r@ =~= self.required_props_spec());
                }
                r
            },
            Role::ScrollBar => {
                let r: &'static [Aria] = &[Aria::Controls, Aria::ValueNow];
                proof {
                    assert(r@ =~= self.required_props_spec());
                }
                r
            },
            Role::Slider => {
                let r: &'static [Aria] = &[Aria::ValueNow];
                proof {
                    assert(r@ =~= self.required_props_spec());
                }
                r
            },
            Role::Switch => {
                let r: &'static [Aria] = &[Aria::Checked];
                proof {
                    assert(r@ =~= self.required_props_spec());
                }
                r
            },
            _ => {
                let r: &'static [Aria] = &[];
                proof {
                    assert(r@ =~= self.required_props_spec());
                }
                r
            },
        }
    }

    /// The semantic HTML suggestion for this role, if one exists.
    pub open spec fn preferred_tag_spec(self) -> Option<Seq<char>> {
        match self {
            Role::Banner => Some("<header>"@),
            Role::Button => Some("<button>"@),
            Role::Complementary => Some("<aside>"@),
            Role::ContentInfo => Some("<footer>"@),
            Role::Form => Some("<form>"@),
            Role::Heading => Some("<h1>-<h6>"@),
            Role::Img => Some("<img>"@),
            Role::Link => Some("<a>"@),
            Role::List => Some("<ul> or <ol>"@),
            Role::ListItem => Some("<li>"@),
            Role::Main => Some("<main>"@),
            Role::Navigation => Some("<nav>"@),
            Role::ProgressBar => Some("<progress>"@),
            Role::Region => Some("<section>"@),
            Role::Row => Some("<tr>"@),
            Role::RowGroup => Some("<tbody>, <thead>, or <tfoot>"@),
            Role::RowHeader => Some("<th>"@),
            Role::Table => Some("<table>"@),
            Role::TextBox => Some("<input> or <textarea>"@),
            _ => None,
        }
    }

    /// If a semantic HTML tag exists for this role, return a suggestion
    /// string.
    pub fn preferred_tag(&self) -> (r: Option<&'static str>)
        ensures
            (r is Some) == (self.preferred_tag_spec() is Some),
            r matches Some(s) ==> Some(s@) == self.preferred_tag_spec(),
    {
        match self {
            Role::Banner => Some("<header>"),
            Role::Button => Some("<button>"),
            Role::Complementary => Some("<aside>"),
            Role::ContentInfo => Some("<footer>"),
            Role::Form => Some("<form>"),
            Role::Heading => Some("<h1>-<h6>"),
            Role::Img => Some("<img>"),
            Role::Link => Some("<a>"),
            Role::List => Some("<ul> or <ol>"),
            Role::ListItem => Some("<li>"),
            Role::Main => Some("<main>"),
            Role::Navigation => Some("<nav>"),
            Role::ProgressBar => Some("<progress>"),
            Role::Region => Some("<section>"),
            Role::Row => Some("<tr>"),
            Role::RowGroup => Some("<tbody>, <thead>, or <tfoot>"),
            Role::RowHeader => Some("<th>"),
            Role::Table => Some("<table>"),
            Role::TextBox => Some("<input> or <textarea>"),
            _ => None,
        }
    }

    /// Whether this role names an interactive widget.
    pub open spec fn is_interactive_spec(self) -> bool {
        match self {
            Role::Button | Role::Checkbox | Role::Combobox | Role::GridCell | Role::Link | Role::ListBox | Role::Menu | Role::Menubar | Role::MenuItem | Role::MenuItemCheckbox | Role::MenuItemRadio | Role::Option | Role::Radio | Role::ScrollBar | Role::SearchBox | Role::Slider | Role::SpinButton | Role::Switch | Role::Tab | Role::TextBox | Role::TreeItem => true,
            _ => false,
        }
    }

    /// Whether this role names an interactive widget.
    pub fn is_interactive(&self) -> (r: bool)
        ensures
            r == self.is_interactive_spec(),
    {
        match self {
            Role::Button | Role::Checkbox | Role::Combobox | Role::GridCell | Role::Link | Role::ListBox | Role::Menu | Role::Menubar | Role::MenuItem | Role::MenuItemCheckbox | Role::MenuItemRadio | Role::Option | Role::Radio | Role::ScrollBar | Role::SearchBox | Role::Slider | Role::SpinButton | Role::Switch | Role::Tab | Role::TextBox | Role::TreeItem => true,
            _ => false,
        }
    }
}


/// HTML element tag names recognised by the linter: the standard HTML5
/// element set, used to match elements against tag-specific rules and
/// implicit ARIA role mappings.
#[derive(Clone, Copy, Debug, PartialEq, Eq, Structural)]
pub enum Tag {
    A,
    Abbr,
    Address,
    Area,
    Article,
    Aside,
    Audio,
    B,
    Base,
    Bdi,
    Bdo,
    Blink,
    Blockquote,
    Body,
    Br,
    Button,
    Canvas,
    Caption,
    Cite,
    Code,
    Col,
    Colgroup,
    Data,
    Datalist,
    Dd,
    Del,
    Details,
    Dfn,
    Dialog,
    Div,
    Dl,
    Dt,
    Em,
    Embed,
    Fieldset,
    Figcaption,
    Figure,
    Footer,
    Form,
    H1,
    H2,
    H3,
    H4,
    H5,
    H6,
    Head,
    Header,
    HGroup,
    Hr,
    Html,
    I,
    Iframe,
    Img,
    Input,
    Ins,
    Kbd,
    Label,
    Legend,
    Li,
    Link,
    Main,
    ImageMap,
    Mark,
    Marquee,
    Math,
    Menu,
    Meta,
    Meter,
    Nav,
    Noscript,
    Object,
    Ol,
    Optgroup,
    Option,
    Output,
    P,
    Param,
    Picture,
    Pre,
    Progress,
    Q,
    Rp,
    Rt,
    Ruby,
    S,
    Samp,
    Script,
    Section,
    Select,
    Small,
    Source,
    Span,
    Strong,
    Style,
    Sub,
    Summary,
    Sup,
    Svg,
    Table,
    Tbody,
    Td,
    Template,
    Textarea,
    Tfoot,
    Th,
    Thead,
    Time,
    Title,
    Tr,
    Track,
    U,
    Ul,
    Var,
    Video,
    Wbr,
}

impl Tag {
    /// The tag name this variant stands for.
    pub open spec fn name_spec(self) -> Seq<char> {
        match self {
            Tag::A => "a"@,
            Tag::Abbr => "abbr"@,
            Tag::Address => "address"@,
            Tag::Area => "area"@,
            Tag::Article => "article"@,
            Tag::Aside => "aside"@,
            Tag::Audio => "audio"@,
            Tag::B => "b"@,
            Tag::Base => "base"@,
            Tag::Bdi => "bdi"@,
            Tag::Bdo => "bdo"@,
            Tag::Blink => "blink"@,
            Tag::Blockquote => "blockquote"@,
            Tag::Body => "body"@,
            Tag::Br => "br"@,
            Tag::Button => "button"@,
            Tag::Canvas => "canvas"@,
            Tag::Caption => "caption"@,
            Tag::Cite => "cite"@,
            Tag::Code => "code"@,
            Tag::Col => "col"@,
            Tag::Colgroup => "colgroup"@,
            Tag::Data => "data"@,
            Tag::Datalist => "datalist"@,
            Tag::Dd => "dd"@,
            Tag::Del => "del"@,
            Tag::Details => "details"@,
            Tag::Dfn => "dfn"@,
            Tag::Dialog => "dialog"@,
            Tag::Div => "div"@,
            Tag::Dl => "dl"@,
            Tag::Dt => "dt"@,
            Tag::Em => "em"@,
            Tag::Embed => "embed"@,
            Tag::Fieldset => "fieldset"@,
            Tag::Figcaption => "figcaption"@,
            Tag::Figure => "figure"@,
            Tag::Footer => "footer"@,
            Tag::Form => "form"@,
            Tag::H1 => "h1"@,
            Tag::H2 => "h2"@,
            Tag::H3 => "h3"@,
            Tag::H4 => "h4"@,
            Tag::H5 => "h5"@,
            Tag::H6 => "h6"@,
            Tag::Head => "head"@,
            Tag::Header => "header"@,
            Tag::HGroup => "hgroup"@,
            Tag::Hr => "hr"@,
            Tag::Html => "html"@,
            Tag::I => "i"@,
            Tag::Iframe => "iframe"@,
            Tag::Img => "img"@,
            Tag::Input => "input"@,
            Tag::Ins => "ins"@,
            Tag::Kbd => "kbd"@,
            Tag::Label => "label"@,
            Tag::Legend => "legend"@,
            Tag::Li => "li"@,
            Tag::Link => "link"@,
            Tag::Main => "main"@,
            Tag::ImageMap => "map"@,
            Tag::Mark => "mark"@,
            Tag::Marquee => "marquee"@,
            Tag::Math => "math"@,
            Tag::Menu => "menu"@,
            Tag::Meta => "meta"@,
            Tag::Meter => "meter"@,
            Tag::Nav => "nav"@,
            Tag::Noscript => "noscript"@,
            Tag::Object => "object"@,
            Tag::Ol => "ol"@,
            Tag::Optgroup => "optgroup"@,
            Tag::Option => "option"@,
            Tag::Output => "output"@,
            Tag::P => "p"@,
            Tag::Param => "param"@,
            Tag::Picture => "picture"@,
            Tag::Pre => "pre"@,
            Tag::Progress => "progress"@,
            Tag::Q => "q"@,
            Tag::Rp => "rp"@,
            Tag::Rt => "rt"@,
            Tag::Ruby => "ruby"@,
            Tag::S => "s"@,
            Tag::Samp => "samp"@,
            Tag::Script => "script"@,
            Tag::Section => "section"@,
            Tag::Select => "select"@,
            Tag::Small => "small"@,
            Tag::Source => "source"@,
            Tag::Span => "span"@,
            Tag::Strong => "strong"@,
            Tag::Style => "style"@,
            Tag::Sub => "sub"@,
            Tag::Summary => "summary"@,
            Tag::Sup => "sup"@,
            Tag::Svg => "svg"@,
            Tag::Table => "table"@,
            Tag::Tbody => "tbody"@,
            Tag::Td => "td"@,
            Tag::Template => "template"@,
            Tag::Textarea => "textarea"@,
            Tag::Tfoot => "tfoot"@,
            Tag::Th => "th"@,
            Tag::Thead => "thead"@,
            Tag::Time => "time"@,
            Tag::Title => "title"@,
            Tag::Tr => "tr"@,
            Tag::Track => "track"@,
            Tag::U => "u"@,
            Tag::Ul => "ul"@,
            Tag::Var => "var"@,
            Tag::Video => "video"@,
            Tag::Wbr => "wbr"@,
        }
    }

    /// The tag name this variant stands for.
    pub fn name(&self) -> (r: &'static str)
        ensures
            r@ == self.name_spec(),
    {
        match self {
            Tag::A => "a",
            Tag::Abbr => "abbr",
            Tag::Address => "address",
            Tag::Area => "area",
            Tag::Article => "article",
            Tag::Aside => "aside",
            Tag::Audio => "audio",
            Tag::B => "b",
            Tag::Base => "base",
            Tag::Bdi => "bdi",
            Tag::Bdo => "bdo",
            Tag::Blink => "blink",
            Tag::Blockquote => "blockquote",
            Tag::Body => "body",
            Tag::Br => "br",
            Tag::Button => "button",
            Tag::Canvas => "canvas",
            Tag::Caption => "caption",
            Tag::Cite => "cite",
            Tag::Code => "code",
            Tag::Col => "col",
            Tag::Colgroup => "colgroup",
            Tag::Data => "data",
            Tag::Datalist => "datalist",
            Tag::Dd => "dd",
            Tag::Del => "del",
            Tag::Details => "details",
            Tag::Dfn => "dfn",
            Tag::Dialog => "dialog",
            Tag::Div => "div",
            Tag::Dl => "dl",
            Tag::Dt => "dt",
            Tag::Em => "em",
            Tag::Embed => "embed",
            Tag::Fieldset => "fieldset",
            Tag::Figcaption => "figcaption",
            Tag::Figure => "figure",
            Tag::Footer => "footer",
            Tag::Form => "form",
            Tag::H1 => "h1",
            Tag::H2 => "h2",
            Tag::H3 => "h3",
            Tag::H4 => "h4",
            Tag::H5 => "h5",
            Tag::H6 => "h6",
            Tag::Head => "head",
            Tag::Header => "header",
            Tag::HGroup => "hgroup",
            Tag::Hr => "hr",
            Tag::Html => "html",
            Tag::I => "i",
            Tag::Iframe => "iframe",
            Tag::Img => "img",
            Tag::Input => "input",
            Tag::Ins => "ins",
            Tag::Kbd => "kbd",
            Tag::Label => "label",
            Tag::Legend => "legend",
            Tag::Li => "li",
            Tag::Link => "link",
            Tag::Main => "main",
            Tag::ImageMap => "map",
            Tag::Mark => "mark",
            Tag::Marquee => "marquee",
            Tag::Math => "math",
            Tag::Menu => "menu",
            Tag::Meta => "meta",
            Tag::Meter => "meter",
            Tag::Nav => "nav",
            Tag::Noscript => "noscript",
            Tag::Object => "object",
            Tag::Ol => "ol",
            Tag::Optgroup => "optgroup",
            Tag::Option => "option",
            Tag::Output => "output",
            Tag::P => "p",
            Tag::Param => "param",
            Tag::Picture => "picture",
            Tag::Pre => "pre",
            Tag::Progress => "progress",
            Tag::Q => "q",
            Tag::Rp => "rp",
            Tag::Rt => "rt",
            Tag::Ruby => "ruby",
            Tag::S => "s",
            Tag::Samp => "samp",
            Tag::Script => "script",
            Tag::Section => "section",
            Tag::Select => "select",
            Tag::Small => "small",
            Tag::Source => "source",
            Tag::Span => "span",
            Tag::Strong => "strong",
            Tag::Style => "style",
            Tag::Sub => "sub",
            Tag::Summary => "summary",
            Tag::Sup => "sup",
            Tag::Svg => "svg",
            Tag::Table => "table",
            Tag::Tbody => "tbody",
            Tag::Td => "td",
            Tag::Template => "template",
            Tag::Textarea => "textarea",
            Tag::Tfoot => "tfoot",
            Tag::Th => "th",
            Tag::Thead => "thead",
            Tag::Time => "time",
            Tag::Title => "title",
            Tag::Tr => "tr",
            Tag::Track => "track",
            Tag::U => "u",
            Tag::Ul => "ul",
            Tag::Var => "var",
            Tag::Video => "video",
            Tag::Wbr => "wbr",
        }
    }

    /// Looks a tag name up: `Some` exactly for the names of the table,
    /// `None` for every other string.
    pub fn from_str(name: &str) -> (r: Option<Tag>)
        ensures
            match r {
                Some(t) => t.name_spec() == name@,
                None => forall|t: Tag| t.name_spec() != name@,
            },
    {
        if str_eq(name, "a") {
            return Some(Tag::A);
        }
        if str_eq(name, "abbr") {
            return Some(Tag::Abbr);
        }
        if str_eq(name, "address") {
            return Some(Tag::Address);
        }
        if str_eq(name, "area") {
            return Some(Tag::Area);
        }
        if str_eq(name, "article") {
            return Some(Tag::Article);
        }
        if str_eq(name, "aside") {
            return Some(Tag::Aside);
        }
        if str_eq(name, "audio") {
            return Some(Tag::Audio);
        }
        if str_eq(name, "b") {
            return Some(Tag::B);
        }
        if str_eq(name, "base") {
            return Some(Tag::Base);
        }
        if str_eq(name, "bdi") {
            return Some(Tag::Bdi);
        }
        if str_eq(name, "bdo") {
            return Some(Tag::Bdo);
        }
        if str_eq(name, "blink") {
            return Some(Tag::Blink);
        }
        if str_eq(name, "blockquote") {
            return Some(Tag::Blockquote);
        }
        if str_eq(name, "body") {
            return Some(Tag::Body);
        }
        if str_eq(name, "br") {
            return Some(Tag::Br);
        }
        if str_eq(name, "button") {
            return Some(Tag::Button);
        }
        if str_eq(name, "canvas") {
            return Some(Tag::Canvas);
        }
        if str_eq(name, "caption") {
            return Some(Tag::Caption);
        }
        if str_eq(name, "cite") {
            return Some(Tag::Cite);
        }
        if str_eq(name, "code") {
            return Some(Tag::Code);
        }
        if str_eq(name, "col") {
            return Some(Tag::Col);
        }
        if str_eq(name, "colgroup") {
            return Some(Tag::Colgroup);
        }
        if str_eq(name, "data") {
            return Some(Tag::Data);
        }
        if str_eq(name, "datalist") {
            return Some(Tag::Datalist);
        }
        if str_eq(name, "dd") {
            return Some(Tag::Dd);
        }
        if str_eq(name, "del") {
            return Some(Tag::Del);
        }
        if str_eq(name, "details") {
            return Some(Tag::Details);
        }
        if str_eq(name, "dfn") {
            return Some(Tag::Dfn);
        }
        if str_eq(name, "dialog") {
            return Some(Tag::Dialog);
        }
        if str_eq(name, "div") {
            return Some(Tag::Div);
        }
        if str_eq(name, "dl") {
            return Some(Tag::Dl);
        }
        if str_eq(name, "dt") {
            return Some(Tag::Dt);
        }
        if str_eq(name, "em") {
            return Some(Tag::Em);
        }
        if str_eq(name, "embed") {
            return Some(Tag::Embed);
        }
        if str_eq(name, "fieldset") {
            return Some(Tag::Fieldset);
        }
        if str_eq(name, "figcaption") {
            return Some(Tag::Figcaption);
        }
        if str_eq(name, "figure") {
            return Some(Tag::Figure);
        }
        if str_eq(name, "footer") {
            return Some(Tag::Footer);
        }
        if str_eq(name, "form") {
            return Some(Tag::Form);
        }
        if str_eq(name, "h1") {
            return Some(Tag::H1);
        }
        if str_eq(name, "h2") {
            return Some(Tag::H2);
        }
        if str_eq(name, "h3") {
            return Some(Tag::H3);
        }
        if str_eq(name, "h4") {
            return Some(Tag::H4);
        }
        if str_eq(name, "h5") {
            return Some(Tag::H5);
        }
        if str_eq(name, "h6") {
            return Some(Tag::H6);
        }
        if str_eq(name, "head") {
            return Some(Tag::Head);
        }
        if str_eq(name, "header") {
            return Some(Tag::Header);
        }
        if str_eq(name, "hgroup") {
            return Some(Tag::HGroup);
        }
        if str_eq(name, "hr") {
            return Some(Tag::Hr);
        }
        if str_eq(name, "html") {
            return Some(Tag::Html);
        }
        if str_eq(name, "i") {
            return Some(Tag::I);
        }
        if str_eq(name, "iframe") {
            return Some(Tag::Iframe);
        }
        if str_eq(name, "img") {
            return Some(Tag::Img);
        }
        if str_eq(name, "input") {
            return Some(Tag::Input);
        }
        if str_eq(name, "ins") {
            return Some(Tag::Ins);
        }
        if str_eq(name, "kbd") {
            return Some(Tag::Kbd);
        }
        if str_eq(name, "label") {
            return Some(Tag::Label);
        }
        if str_eq(name, "legend") {
            return Some(Tag::Legend);
        }
        if str_eq(name, "li") {
            return Some(Tag::Li);
        }
        if str_eq(name, "link") {
            return Some(Tag::Link);
        }
        if str_eq(name, "main") {
            return Some(Tag::Main);
        }
        if str_eq(name, "map") {
            return Some(Tag::ImageMap);
        }
        if str_eq(name, "mark") {
            return Some(Tag::Mark);
        }
        if str_eq(name, "marquee") {
            return Some(Tag::Marquee);
        }
        if str_eq(name, "math") {
            return Some(Tag::Math);
        }
        if str_eq(name, "menu") {
            return Some(Tag::Menu);
        }
        if str_eq(name, "meta") {
            return Some(Tag::Meta);
        }
        if str_eq(name, "meter") {
            return Some(Tag::Meter);
        }
        if str_eq(name, "nav") {
            return Some(Tag::Nav);
        }
        if str_eq(name, "noscript") {
            return Some(Tag::Noscript);
        }
        if str_eq(name, "object") {
            return Some(Tag::Object);
        }
        if str_eq(name, "ol") {
            return Some(Tag::Ol);
        }
        if str_eq(name, "optgroup") {
            return Some(Tag::Optgroup);
        }
        if str_eq(name, "option") {
            return Some(Tag::Option);
        }
        if str_eq(name, "output") {
            return Some(Tag::Output);
        }
        if str_eq(name, "p") {
            return Some(Tag::P);
        }
        if str_eq(name, "param") {
            return Some(Tag::Param);
        }
        if str_eq(name, "picture") {
            return Some(Tag::Picture);
        }
        if str_eq(name, "pre") {
            return Some(Tag::Pre);
        }
        if str_eq(name, "progress") {
            return Some(Tag::Progress);
        }
        if str_eq(name, "q") {
            return Some(Tag::Q);
        }
        if str_eq(name, "rp") {
            return Some(Tag::Rp);
        }
        if str_eq(name, "rt") {
            return Some(Tag::Rt);
        }
        if str_eq(name, "ruby") {
            return Some(Tag::Ruby);
        }
        if str_eq(name, "s") {
            return Some(Tag::S);
        }
        if str_eq(name, "samp") {
            return Some(Tag::Samp);
        }
        if str_eq(name, "script") {
            return Some(Tag::Script);
        }
        if str_eq(name, "section") {
            return Some(Tag::Section);
        }
        if str_eq(name, "select") {
            return Some(Tag::Select);
        }
        if str_eq(name, "small") {
            return Some(Tag::Small);
        }
        if str_eq(name, "source") {
            return Some(Tag::Source);
        }
        if str_eq(name, "span") {
            return Some(Tag::Span);
        }
        if str_eq(name, "strong") {
            return Some(Tag::Strong);
        }
        if str_eq(name, "style") {
            return Some(Tag::Style);
        }
        if str_eq(name, "sub") {
            return Some(Tag::Sub);
        }
        if str_eq(name, "summary") {
            return Some(Tag::Summary);
        }
        if str_eq(name, "sup") {
            return Some(Tag::Sup);
        }
        if str_eq(name, "svg") {
            return Some(Tag::Svg);
        }
        if str_eq(name, "table") {
            return Some(Tag::Table);
        }
        if str_eq(name, "tbody") {
            return Some(Tag::Tbody);
        }
        if str_eq(name, "td") {
            return Some(Tag::Td);
        }
        if str_eq(name, "template") {
            return Some(Tag::Template);
        }
        if str_eq(name, "textarea") {
            return Some(Tag::Textarea);
        }
        if str_eq(name, "tfoot") {
            return Some(Tag::Tfoot);
        }
        if str_eq(name, "th") {
            return Some(Tag::Th);
        }
        if str_eq(name, "thead") {
            return Some(Tag::Thead);
        }
        if str_eq(name, "time") {
            return Some(Tag::Time);
        }
        if str_eq(name, "title") {
            return Some(Tag::Title);
        }
        if str_eq(name, "tr") {
            return Some(Tag::Tr);
        }
        if str_eq(name, "track") {
            return Some(Tag::Track);
        }
        if str_eq(name, "u") {
            return Some(Tag::U);
        }
        if str_eq(name, "ul") {
            return Some(Tag::Ul);
        }
        if str_eq(name, "var") {
            return Some(Tag::Var);
        }
        if str_eq(name, "video") {
            return Some(Tag::Video);
        }
        if str_eq(name, "wbr") {
            return Some(Tag::Wbr);
        }
        assert forall|t: Tag| t.name_spec() != name@ by {
        }
        None
    }

    /// Whether this element is natively interactive.
    pub open spec fn is_interactive_spec(self) -> bool {
        match self {
            Tag::A | Tag::Button | Tag::Details | Tag::Input | Tag::Select | Tag::Summary | Tag::Textarea => true,
            _ => false,
        }
    }

    /// Whether this element is natively interactive.
    pub fn is_interactive(&self) -> (r: bool)
        ensures
            r == self.is_interactive_spec(),
    {
        match self {
            Tag::A | Tag::Button | Tag::Details | Tag::Input | Tag::Select | Tag::Summary | Tag::Textarea => true,
            _ => false,
        }
    }

    /// Whether this element supports ARIA roles and properties.
    pub open spec fn supports_aria_spec(self) -> bool {
        match self {
            Tag::Base | Tag::Head | Tag::Html | Tag::Meta | Tag::Script | Tag::Style | Tag::Title => false,
            _ => true,
        }
    }

    /// Whether this element supports ARIA roles and properties.
    pub fn supports_aria(&self) -> (r: bool)
        ensures
            r == self.supports_aria_spec(),
    {
        match self {
            Tag::Base | Tag::Head | Tag::Html | Tag::Meta | Tag::Script | Tag::Style | Tag::Title => false,
            _ => true,
        }
    }

    /// Whether this element is a heading.
    pub open spec fn is_heading_spec(self) -> bool {
        match self {
            Tag::H1 | Tag::H2 | Tag::H3 | Tag::H4 | Tag::H5 | Tag::H6 => true,
            _ => false,
        }
    }

    /// Whether this element is a heading.
    pub fn is_heading(&self) -> (r: bool)
        ensures
            r == self.is_heading_spec(),
    {
        match self {
            Tag::H1 | Tag::H2 | Tag::H3 | Tag::H4 | Tag::H5 | Tag::H6 => true,
            _ => false,
        }
    }

    /// The implicit ARIA role of this element, if it has one.
    pub open spec fn implicit_role_spec(self) -> Option<Role> {
        match self {
            Tag::A => Some(Role::Link),
            Tag::Area => Some(Role::Link),
            Tag::Article => Some(Role::Article),
            Tag::Aside => Some(Role::Complementary),
            Tag::Body => Some(Role::Document),
            Tag::Button => Some(Role::Button),
            Tag::Datalist => Some(Role::ListBox),
            Tag::Details => Some(Role::Group),
            Tag::Dialog => Some(Role::Dialog),
            Tag::Fieldset => Some(Role::Group),
            Tag::Figure => Some(Role::Figure),
            Tag::Footer => Some(Role::ContentInfo),
            Tag::Form => Some(Role::Form),
            Tag::H1 => Some(Role::Heading),
            Tag::H2 => Some(Role::Heading),
            Tag::H3 => Some(Role::Heading),
            Tag::H4 => Some(Role::Heading),
            Tag::H5 => Some(Role::Heading),
            Tag::H6 => Some(Role::Heading),
            Tag::Header => Some(Role::Banner),
            Tag::Hr => Some(Role::Separator),
            Tag::Img => Some(Role::Img),
            Tag::Input => Some(Role::TextBox),
            Tag::Li => Some(Role::ListItem),
            Tag::Main => Some(Role::Main),
            Tag::Math => Some(Role::Math),
            Tag::Menu => Some(Role::List),
            Tag::Meter => Some(Role::Meter),
            Tag::Nav => Some(Role::Navigation),
            Tag::Ol => Some(Role::List),
            Tag::Optgroup => Some(Role::Group),
            Tag::Option => Some(Role::Option),
            Tag::Output => Some(Role::Status),
            Tag::Progress => Some(Role::ProgressBar),
            Tag::Section => Some(Role::Region),
            Tag::Select => Some(Role::Combobox),
            Tag::Summary => Some(Role::Button),
            Tag::Table => Some(Role::Table),
            Tag::Tbody => Some(Role::RowGroup),
            Tag::Td => Some(Role::Cell),
            Tag::Textarea => Some(Role::TextBox),
            Tag::Tfoot => Some(Role::RowGroup),
            Tag::Th => Some(Role::ColumnHeader),
            Tag::Thead => Some(Role::RowGroup),
            Tag::Tr => Some(Role::Row),
            Tag::Ul => Some(Role::List),
            _ => None,
        }
    }

    /// The implicit ARIA role of this element, if it has one.
    pub fn implicit_role(&self) -> (r: Option<Role>)
        ensures
            r == self.implicit_role_spec(),
    {
        match self {
            Tag::A => Some(Role::Link),
            Tag::Area => Some(Role::Link),
            Tag::Article => Some(Role::Article),
            Tag::Aside => Some(Role::Complementary),
            Tag::Body => Some(Role::Document),
            Tag::Button => Some(Role::Button),
            Tag::Datalist => Some(Role::ListBox),
            Tag::Details => Some(Role::Group),
            Tag::Dialog => Some(Role::Dialog),
            Tag::Fieldset => Some(Role::Group),
            Tag::Figure => Some(Role::Figure),
            Tag::Footer => Some(Role::ContentInfo),
            Tag::Form => Some(Role::Form),
            Tag::H1 => Some(Role::Heading),
            Tag::H2 => Some(Role::Heading),
            Tag::H3 => Some(Role::Heading),
            Tag::H4 => Some(Role::Heading),
            Tag::H5 => Some(Role::Heading),
            Tag::H6 => Some(Role::Heading),
            Tag::Header => Some(Role::Banner),
            Tag::Hr => Some(Role::Separator),
            Tag::Img => Some(Role::Img),
            Tag::Input => Some(Role::TextBox),
            Tag::Li => Some(Role::ListItem),
            Tag::Main => Some(Role::Main),
            Tag::Math => Some(Role::Math),
            Tag::Menu => Some(Role::List),
            Tag::Meter => Some(Role::Meter),
            Tag::Nav => Some(Role::Navigation),
            Tag::Ol => Some(Role::List),
            Tag::Optgroup => Some(Role::Group),
            Tag::Option => Some(Role::Option),
            Tag::Output => Some(Role::Status),
            Tag::Progress => Some(Role::ProgressBar),
            Tag::Section => Some(Role::Region),
            Tag::Select => Some(Role::Combobox),
            Tag::Summary => Some(Role::Button),
            Tag::Table => Some(Role::Table),
            Tag::Tbody => Some(Role::RowGroup),
            Tag::Td => Some(Role::Cell),
            Tag::Textarea => Some(Role::TextBox),
            Tag::Tfoot => Some(Role::RowGroup),
            Tag::Th => Some(Role::ColumnHeader),
            Tag::Thead => Some(Role::RowGroup),
            Tag::Tr => Some(Role::Row),
            Tag::Ul => Some(Role::List),
            _ => None,
        }
    }

    /// Whether this element has no semantic role at all: not interactive
    /// and without an implicit role.
    pub open spec fn is_static_spec(self) -> bool {
        !self.is_interactive_spec() && self.implicit_role_spec() is None
    }

    /// Whether this element has no semantic role (e.g. div, span).
    pub fn is_static(&self) -> (r: bool)
        ensures
            r == self.is_static_spec(),
    {
        !self.is_interactive() && self.implicit_role().is_none()
    }

    /// Whether this element has a non-interactive semantic role.
    pub open spec fn is_non_interactive_semantic_spec(self) -> bool {
        !self.is_interactive_spec() && self.implicit_role_spec() is Some
    }

    /// Whether this element has a non-interactive semantic role.
    pub fn is_non_interactive_semantic(&self) -> (r: bool)
        ensures
            r == self.is_non_interactive_semantic_spec(),
    {
        !self.is_interactive() && self.implicit_role().is_some()
    }

    /// Whether this element is an HTML void element, which cannot have
    /// children.
    pub open spec fn is_void_element_spec(self) -> bool {
        match self {
            Tag::Area | Tag::Base | Tag::Br | Tag::Col | Tag::Embed | Tag::Hr | Tag::Img | Tag::Input | Tag::Link | Tag::Meta | Tag::Param | Tag::Source | Tag::Track | Tag::Wbr => true,
            _ => false,
        }
    }

    /// HTML void elements that cannot have children.
    pub fn is_void_element(&self) -> (r: bool)
        ensures
            r == self.is_void_element_spec(),
    {
        match self {
            Tag::Area | Tag::Base | Tag::Br | Tag::Col | Tag::Embed | Tag::Hr | Tag::Img | Tag::Input | Tag::Link | Tag::Meta | Tag::Param | Tag::Source | Tag::Track | Tag::Wbr => true,
            _ => false,
        }
    }
}


/// HTML attribute names relevant to accessibility linting: event handlers,
/// global attributes, element-specific attributes, ARIA properties, and a
/// catch-all for anything unrecognized.
#[derive(Clone, Debug)]
pub enum AttributeName {
    OnMouseOver,
    OnMouseOut,
    OnClick,
    OnKeyDown,
    OnKeyPress,
    OnKeyUp,
    OnFocus,
    OnBlur,
    OnChange,
    OnInput,
    OnSubmit,
    AccessKey,
    Alt,
    Autocomplete,
    AutoFocus,
    Class,
    For,
    Href,
    Lang,
    Muted,
    Role,
    Scope,
    Src,
    TabIndex,
    Title,
    Type,
    Aria(Aria),
    /// Either a non-standard attribute or one not relevant to this crate.
    Unknown(String),
}

/// Whether `s` spells one of the recognized (non-ARIA, non-catch-all)
/// attribute names, under its primary spelling or an accepted alias.
pub open spec fn known_plain_attr(s: Seq<char>) -> bool {
    s == "onmouseover"@ || s == "on:mouseover"@ || s == "onmouseout"@ || s == "on:mouseout"@ || s == "onclick"@ || s == "on:click"@ || s == "onkeydown"@ || s == "on:keydown"@ || s == "onkeypress"@ || s == "on:keypress"@ || s == "onkeyup"@ || s == "on:keyup"@ || s == "onfocus"@ || s == "on:focus"@ || s == "onblur"@ || s == "on:blur"@ || s == "onchange"@ || s == "on:change"@ || s == "oninput"@ || s == "on:input"@ || s == "onsubmit"@ || s == "on:submit"@ || s == "accesskey"@ || s == "alt"@ || s == "autocomplete"@ || s == "autofocus"@ || s == "class"@ || s == "for"@ || s == "html_for"@ || s == "href"@ || s == "lang"@ || s == "muted"@ || s == "role"@ || s == "scope"@ || s == "src"@ || s == "tabindex"@ || s == "title"@ || s == "type"@
}

/// Which attribute name `n` is the reading of the string `s`.
pub open spec fn attr_name_matches(n: AttributeName, s: Seq<char>) -> bool {
    match n {
        AttributeName::OnMouseOver => s == "onmouseover"@ || s == "on:mouseover"@,
        AttributeName::OnMouseOut => s == "onmouseout"@ || s == "on:mouseout"@,
        AttributeName::OnClick => s == "onclick"@ || s == "on:click"@,
        AttributeName::OnKeyDown => s == "onkeydown"@ || s == "on:keydown"@,
        AttributeName::OnKeyPress => s == "onkeypress"@ || s == "on:keypress"@,
        AttributeName::OnKeyUp => s == "onkeyup"@ || s == "on:keyup"@,
        AttributeName::OnFocus => s == "onfocus"@ || s == "on:focus"@,
        AttributeName::OnBlur => s == "onblur"@ || s == "on:blur"@,
        AttributeName::OnChange => s == "onchange"@ || s == "on:change"@,
        AttributeName::OnInput => s == "oninput"@ || s == "on:input"@,
        AttributeName::OnSubmit => s == "onsubmit"@ || s == "on:submit"@,
        AttributeName::AccessKey => s == "accesskey"@,
        AttributeName::Alt => s == "alt"@,
        AttributeName::Autocomplete => s == "autocomplete"@,
        AttributeName::AutoFocus => s == "autofocus"@,
        AttributeName::Class => s == "class"@,
        AttributeName::For => s == "for"@ || s == "html_for"@,
        AttributeName::Href => s == "href"@,
        AttributeName::Lang => s == "lang"@,
        AttributeName::Muted => s == "muted"@,
        AttributeName::Role => s == "role"@,
        AttributeName::Scope => s == "scope"@,
        AttributeName::Src => s == "src"@,
        AttributeName::TabIndex => s == "tabindex"@,
        AttributeName::Title => s == "title"@,
        AttributeName::Type => s == "type"@,
        AttributeName::Aria(a) => a.name_spec() == s,
        AttributeName::Unknown(u) => u@ == s && !known_plain_attr(s) && (forall|a: Aria|
            a.name_spec() != s),
    }
}

/// Whether two attribute names are the same, comparing `Unknown` payloads
/// by their characters.
pub open spec fn same_attr_name(a: AttributeName, b: AttributeName) -> bool {
    match (a, b) {
        (AttributeName::OnMouseOver, AttributeName::OnMouseOver) => true,
        (AttributeName::OnMouseOut, AttributeName::OnMouseOut) => true,
        (AttributeName::OnClick, AttributeName::OnClick) => true,
        (AttributeName::OnKeyDown, AttributeName::OnKeyDown) => true,
        (AttributeName::OnKeyPress, AttributeName::OnKeyPress) => true,
        (AttributeName::OnKeyUp, AttributeName::OnKeyUp) => true,
        (AttributeName::OnFocus, AttributeName::OnFocus) => true,
        (AttributeName::OnBlur, AttributeName::OnBlur) => true,
        (AttributeName::OnChange, AttributeName::OnChange) => true,
        (AttributeName::OnInput, AttributeName::OnInput) => true,
        (AttributeName::OnSubmit, AttributeName::OnSubmit) => true,
        (AttributeName::AccessKey, AttributeName::AccessKey) => true,
        (AttributeName::Alt, AttributeName::Alt) => true,
        (AttributeName::Autocomplete, AttributeName::Autocomplete) => true,
        (AttributeName::AutoFocus, AttributeName::AutoFocus) => true,
        (AttributeName::Class, AttributeName::Class) => true,
        (AttributeName::For, AttributeName::For) => true,
        (AttributeName::Href, AttributeName::Href) => true,
        (AttributeName::Lang, AttributeName::Lang) => true,
        (AttributeName::Muted, AttributeName::Muted) => true,
        (AttributeName::Role, AttributeName::Role) => true,
        (AttributeName::Scope, AttributeName::Scope) => true,
        (AttributeName::Src, AttributeName::Src) => true,
        (AttributeName::TabIndex, AttributeName::TabIndex) => true,
        (AttributeName::Title, AttributeName::Title) => true,
        (AttributeName::Type, AttributeName::Type) => true,
        (AttributeName::Aria(x), AttributeName::Aria(y)) => x == y,
        (AttributeName::Unknown(x), AttributeName::Unknown(y)) => x@ == y@,
        _ => false,
    }
}

impl AttributeName {
    /// Reads an attribute name: a recognized spelling gives its variant, an
    /// `aria-*` name from the table gives `Aria`, and anything else is kept
    /// as `Unknown`.
    pub fn from_str(name: &str) -> (r: Option<AttributeName>)
        ensures
            r matches Some(n) && attr_name_matches(n, name@),
    {
        if str_eq(name, "onmouseover") || str_eq(name, "on:mouseover") {
            return Some(AttributeName::OnMouseOver);
        }
        if str_eq(name, "onmouseout") || str_eq(name, "on:mouseout") {
            return Some(AttributeName::OnMouseOut);
        }
        if str_eq(name, "onclick") || str_eq(name, "on:click") {
            return Some(AttributeName::OnClick);
        }
        if str_eq(name, "onkeydown") || str_eq(name, "on:keydown") {
            return Some(AttributeName::OnKeyDown);
        }
        if str_eq(name, "onkeypress") || str_eq(name, "on:keypress") {
            return Some(AttributeName::OnKeyPress);
        }
        if str_eq(name, "onkeyup") || str_eq(name, "on:keyup") {
            return Some(AttributeName::OnKeyUp);
        }
        if str_eq(name, "onfocus") || str_eq(name, "on:focus") {
            return Some(AttributeName::OnFocus);
        }
        if str_eq(name, "onblur") || str_eq(name, "on:blur") {
            return Some(AttributeName::OnBlur);
        }
        if str_eq(name, "onchange") || str_eq(name, "on:change") {
            return Some(AttributeName::OnChange);
        }
        if str_eq(name, "oninput") || str_eq(name, "on:input") {
            return Some(AttributeName::OnInput);
        }
        if str_eq(name, "onsubmit") || str_eq(name, "on:submit") {
            return Some(AttributeName::OnSubmit);
        }
        if str_eq(name, "accesskey") {
            return Some(AttributeName::AccessKey);
        }
        if str_eq(name, "alt") {
            return Some(AttributeName::Alt);
        }
        if str_eq(name, "autocomplete") {
            return Some(AttributeName::Autocomplete);
        }
        if str_eq(name, "autofocus") {
            return Some(AttributeName::AutoFocus);
        }
        if str_eq(name, "class") {
            return Some(AttributeName::Class);
        }
        if str_eq(name, "for") || str_eq(name, "html_for") {
            return Some(AttributeName::For);
        }
        if str_eq(name, "href") {
            return Some(AttributeName::Href);
        }
        if str_eq(name, "lang") {
            return Some(AttributeName::Lang);
        }
        if str_eq(name, "muted") {
            return Some(AttributeName::Muted);
        }
        if str_eq(name, "role") {
            return Some(AttributeName::Role);
        }
        if str_eq(name, "scope") {
            return Some(AttributeName::Scope);
        }
        if str_eq(name, "src") {
            return Some(AttributeName::Src);
        }
        if str_eq(name, "tabindex") {
            return Some(AttributeName::TabIndex);
        }
        if str_eq(name, "title") {
            return Some(AttributeName::Title);
        }
        if str_eq(name, "type") {
            return Some(AttributeName::Type);
        }
        if let Some(a) = Aria::from_str(name) {
            return Some(AttributeName::Aria(a));
        }
        Some(AttributeName::Unknown(String::from_str(name)))
    }

    /// The attribute name as written, for diagnostics.
    pub open spec fn display_spec(&self) -> Seq<char> {
        match self {
            AttributeName::OnMouseOver => "onmouseover"@,
            AttributeName::OnMouseOut => "onmouseout"@,
            AttributeName::OnClick => "onclick"@,
            AttributeName::OnKeyDown => "onkeydown"@,
            AttributeName::OnKeyPress => "onkeypress"@,
            AttributeName::OnKeyUp => "onkeyup"@,
            AttributeName::OnFocus => "onfocus"@,
            AttributeName::OnBlur => "onblur"@,
            AttributeName::OnChange => "onchange"@,
            AttributeName::OnInput => "oninput"@,
            AttributeName::OnSubmit => "onsubmit"@,
            AttributeName::AccessKey => "accesskey"@,
            AttributeName::Alt => "alt"@,
            AttributeName::Autocomplete => "autocomplete"@,
            AttributeName::AutoFocus => "autofocus"@,
            AttributeName::Class => "class"@,
            AttributeName::For => "for"@,
            AttributeName::Href => "href"@,
            AttributeName::Lang => "lang"@,
            AttributeName::Muted => "muted"@,
            AttributeName::Role => "role"@,
            AttributeName::Scope => "scope"@,
            AttributeName::Src => "src"@,
            AttributeName::TabIndex => "tabindex"@,
            AttributeName::Title => "title"@,
            AttributeName::Type => "type"@,
            AttributeName::Aria(a) => a.name_spec(),
            AttributeName::Unknown(u) => u@,
        }
    }

    /// The attribute name as written, for diagnostics.
    pub fn name(&self) -> (r: String)
        ensures
            r@ == self.display_spec(),
    {
        match self {
            AttributeName::OnMouseOver => String::from_str("onmouseover"),
            AttributeName::OnMouseOut => String::from_str("onmouseout"),
            AttributeName::OnClick => String::from_str("onclick"),
            AttributeName::OnKeyDown => String::from_str("onkeydown"),
            AttributeName::OnKeyPress => String::from_str("onkeypress"),
            AttributeName::OnKeyUp => String::from_str("onkeyup"),
            AttributeName::OnFocus => String::from_str("onfocus"),
            AttributeName::OnBlur => String::from_str("onblur"),
            AttributeName::OnChange => String::from_str("onchange"),
            AttributeName::OnInput => String::from_str("oninput"),
            AttributeName::OnSubmit => String::from_str("onsubmit"),
            AttributeName::AccessKey => String::from_str("accesskey"),
            AttributeName::Alt => String::from_str("alt"),
            AttributeName::Autocomplete => String::from_str("autocomplete"),
            AttributeName::AutoFocus => String::from_str("autofocus"),
            AttributeName::Class => String::from_str("class"),
            AttributeName::For => String::from_str("for"),
            AttributeName::Href => String::from_str("href"),
            AttributeName::Lang => String::from_str("lang"),
            AttributeName::Muted => String::from_str("muted"),
            AttributeName::Role => String::from_str("role"),
            AttributeName::Scope => String::from_str("scope"),
            AttributeName::Src => String::from_str("src"),
            AttributeName::TabIndex => String::from_str("tabindex"),
            AttributeName::Title => String::from_str("title"),
            AttributeName::Type => String::from_str("type"),
            AttributeName::Aria(a) => String::from_str(a.name()),
            AttributeName::Unknown(u) => u.clone(),
        }
    }
}

impl PartialEq for AttributeName {
    fn eq(&self, other: &AttributeName) -> (r: bool) {
        match (self, other) {
            (AttributeName::OnMouseOver, AttributeName::OnMouseOver) => true,
            (AttributeName::OnMouseOut, AttributeName::OnMouseOut) => true,
            (AttributeName::OnClick, AttributeName::OnClick) => true,
            (AttributeName::OnKeyDown, AttributeName::OnKeyDown) => true,
            (AttributeName::OnKeyPress, AttributeName::OnKeyPress) => true,
            (AttributeName::OnKeyUp, AttributeName::OnKeyUp) => true,
            (AttributeName::OnFocus, AttributeName::OnFocus) => true,
            (AttributeName::OnBlur, AttributeName::OnBlur) => true,
            (AttributeName::OnChange, AttributeName::OnChange) => true,
            (AttributeName::OnInput, AttributeName::OnInput) => true,
            (AttributeName::OnSubmit, AttributeName::OnSubmit) => true,
            (AttributeName::AccessKey, AttributeName::AccessKey) => true,
            (AttributeName::Alt, AttributeName::Alt) => true,
            (AttributeName::Autocomplete, AttributeName::Autocomplete) => true,
            (AttributeName::AutoFocus, AttributeName::AutoFocus) => true,
            (AttributeName::Class, AttributeName::Class) => true,
            (AttributeName::For, AttributeName::For) => true,
            (AttributeName::Href, AttributeName::Href) => true,
            (AttributeName::Lang, AttributeName::Lang) => true,
            (AttributeName::Muted, AttributeName::Muted) => true,
            (AttributeName::Role, AttributeName::Role) => true,
            (AttributeName::Scope, AttributeName::Scope) => true,
            (AttributeName::Src, AttributeName::Src) => true,
            (AttributeName::TabIndex, AttributeName::TabIndex) => true,
            (AttributeName::Title, AttributeName::Title) => true,
            (AttributeName::Type, AttributeName::Type) => true,
            (AttributeName::Aria(a), AttributeName::Aria(b)) => *a == *b,
            (AttributeName::Unknown(a), AttributeName::Unknown(b)) => *a == *b,
            _ => false,
        }
    }
}

impl vstd::std_specs::cmp::PartialEqSpecImpl for AttributeName {
    open spec fn obeys_eq_spec() -> bool {
        true
    }

    open spec fn eq_spec(&self, other: &AttributeName) -> bool {
        same_attr_name(*self, *other)
    }
}

} // verus!

