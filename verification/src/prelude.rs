//! Convenience re-exports of the crate's most used items.

pub use crate::dom::{Aria, AriaValueType, AttributeName, Role, Tag};
pub use crate::element::ParseError;
pub use crate::lints::{LintDiagnostic, Rule, Severity};
pub use crate::{check_project, LintSummary};
