//! The structured description of a recognized checkbox component.

use vstd::prelude::*;
use crate::strutil::str_eq;

verus! {

/// The tri-state checked value of a checkbox, parsed from a free-text
/// property value; unrecognized strings fall back to `False`.
#[derive(Debug, Clone, Copy, PartialEq, Eq, Structural)]
pub enum CheckedType {
    True,
    False,
    Indeterminate,
}

impl CheckedType {
    /// Exactly `"true"`, `"false"` and `"indeterminate"` are recognized;
    /// every other string reads as `False`.
    pub open spec fn spec_from_text(s: Seq<char>) -> CheckedType {
        if s == "true"@ {
            CheckedType::True
        } else if s == "false"@ {
            CheckedType::False
        } else if s == "indeterminate"@ {
            CheckedType::Indeterminate
        } else {
            CheckedType::False
        }
    }

    pub fn from_text(s: &str) -> (r: CheckedType)
        ensures
            r == CheckedType::spec_from_text(s@),
    {
        if str_eq(s, "true") {
            CheckedType::True
        } else if str_eq(s, "false") {
            CheckedType::False
        } else if str_eq(s, "indeterminate") {
            CheckedType::Indeterminate
        } else {
            CheckedType::False
        }
    }
}

/// What the checkbox extractor reads off an accepted node. The upstream
/// tool cannot express dismissability for checkboxes, so that flag is
/// always false: a known representational gap, not a defect.
#[derive(Debug, Clone)]
pub struct ComponentCheckbox {
    pub label: Option<String>,
    pub has_label: bool,
    pub disabled: bool,
    pub checked: CheckedType,
    pub dismissable: bool,
}

impl ComponentCheckbox {
    pub fn new() -> (r: ComponentCheckbox)
        ensures
            r.label is None,
            !r.has_label,
            !r.disabled,
            r.checked == CheckedType::True,
            !r.dismissable,
    {
        ComponentCheckbox {
            label: None,
            has_label: false,
            disabled: false,
            checked: CheckedType::True,
            dismissable: false,
        }
    }
}

} // verus!
