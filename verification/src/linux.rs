//! The strategy for systems that do not scale on behalf of a program: the
//! scale is standard density, whatever is asked.

use crate::scale::{Ratio, ScaleFactor};
use crate::surface::Surface;
use vstd::prelude::*;

verus! {

/// The scale of a surface: standard density for each of them.
pub open spec fn scale_for(surface: Surface) -> Ratio {
    Ratio::one()
}

/// Does nothing: there is no awareness to declare.
pub fn enable_dpi() {
}

/// The scale of the desktop: that of a query about no surface.
pub fn desktop_dpi() -> (scale: ScaleFactor)
    ensures
        scale@ == scale_for(Surface::Absent),
{
    get_dpi_for(Surface::Absent)
}

/// The scale of the desktop that a surface is on.
pub fn get_dpi_for(surface: Surface) -> (scale: ScaleFactor)
    ensures
        scale@ == scale_for(surface),
{
    ScaleFactor::standard()
}

/// Every query gives a factor of exactly one, so any two surfaces, and the
/// desktop, have the same scale.
pub proof fn lemma_scale_is_always_one(first: Surface, second: Surface)
    ensures
        scale_for(first).is_one(),
        scale_for(first).is_positive(),
        scale_for(first) == scale_for(second),
        scale_for(first) == scale_for(Surface::Absent),
{
}

} // verus!
