//! The strategy for systems of the macOS family, where screens and windows
//! are objects that answer for their own scale, and the main screen answers
//! for the desktop.

use crate::surface::Surface;
use vstd::prelude::*;

verus! {

/// The object to ask for its scale.
#[derive(Debug, Clone, Copy, PartialEq, Eq, Structural)]
pub enum Source {
    /// The main screen.
    MainScreen,
    /// The surface that the query is about.
    GivenSurface,
}

/// The object that a query about a surface asks: the surface itself where it
/// is there and answers, else the main screen.
pub open spec fn source_for(surface: Surface) -> Source {
    if surface.means_desktop() {
        Source::MainScreen
    } else {
        Source::GivenSurface
    }
}

/// Does nothing: these systems take no declaration of awareness.
pub fn enable_dpi() {
}

/// Says whom to ask for the scale of the desktop: whom a query about no
/// surface asks.
pub fn desktop_dpi() -> (source: Source)
    ensures
        source == source_for(Surface::Absent),
        source is MainScreen,
{
    get_dpi_for(Surface::Absent)
}

/// Says whom to ask for the scale of a surface. The caller has found out
/// before whether the object it holds answers such a question, and says so
/// in `surface`.
pub fn get_dpi_for(surface: Surface) -> (source: Source)
    ensures
        source == source_for(surface),
{
    match surface {
        Surface::Present => Source::GivenSurface,
        Surface::Absent | Surface::Unanswering => Source::MainScreen,
    }
}

/// A query about no surface, or about an object that cannot answer, asks
/// whom the desktop query asks.
pub proof fn lemma_no_surface_means_desktop(surface: Surface)
    requires
        surface.means_desktop(),
    ensures
        source_for(surface) == source_for(Surface::Absent),
        source_for(surface) is MainScreen,
{
}

} // verus!
