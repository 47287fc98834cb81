//! What a scale query has to know of the surface it is asked about.

use vstd::prelude::*;

verus! {

/// A surface reference as the queries see it. The handle itself stays with
/// the caller; only what decides the query is held here.
#[derive(Debug, Clone, Copy, PartialEq, Eq, Structural)]
pub enum Surface {
    /// No surface was given: the question is about the desktop as a whole.
    Absent,
    /// A window or screen that can be asked about the display it is on.
    Present,
    /// A reference to something that cannot answer a scale query.
    Unanswering,
}

impl Surface {
    /// Whether a query about this surface is a query about the desktop as a
    /// whole. It is for every reference but one to a surface that answers.
    pub open spec fn means_desktop(self) -> bool {
        !(self is Present)
    }
}

} // verus!
