//! The central panel, beside the sidebar.
use vstd::prelude::*;

verus! {

/// The central panel. It keeps no state of its own.
#[derive(Default)]
pub struct CPanel {}

impl CPanel {
    /// The heading under which the panel is listed.
    pub fn name(&self) -> (r: &'static str)
        ensures
            r@ == "\u{1f5d6} Panels"@,
    {
        "\u{1f5d6} Panels"
    }
}

} // verus!
