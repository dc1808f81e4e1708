//! The structured description of a recognized alert component.

use vstd::prelude::*;

verus! {

/// What the alert extractor reads off an accepted node. Absent or mistyped
/// properties fall back to each field's default rather than failing.
#[derive(Debug, Clone)]
pub struct ComponentAlert {
    pub severity: Option<String>,
    pub message: Option<String>,
    pub has_title: bool,
    pub has_actions: bool,
    pub dismissable: bool,
}

impl ComponentAlert {
    pub fn new() -> (r: ComponentAlert)
        ensures
            r.severity is None,
            r.message is None,
            !r.has_title,
            !r.has_actions,
            !r.dismissable,
    {
        ComponentAlert {
            severity: None,
            message: None,
            has_title: false,
            has_actions: false,
            dismissable: false,
        }
    }
}

} // verus!
