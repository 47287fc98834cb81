//! The strategy for systems of the Windows family, where pixels per inch are
//! read from the system and the finer entry points may be missing.

use crate::capability::CapabilitySet;
use crate::surface::Surface;
use vstd::prelude::*;

verus! {

/// How far a process declares that it scales its own drawing.
#[derive(Debug, Clone, Copy, PartialEq, Eq, Structural)]
pub enum Awareness {
    /// The system stretches the drawing as it sees fit.
    Unaware,
    /// The process follows one scale for the whole system.
    System,
    /// The process follows the scale of each monitor.
    PerMonitor,
}

impl Awareness {
    /// The number that the system knows the level by.
    pub open spec fn level_value(self) -> int {
        match self {
            Awareness::Unaware => 0,
            Awareness::System => 1,
            Awareness::PerMonitor => 2,
        }
    }

    /// The number that the system knows the level by.
    pub fn level(&self) -> (level: u32)
        ensures
            level == self.level_value(),
    {
        match self {
            Awareness::Unaware => 0,
            Awareness::System => 1,
            Awareness::PerMonitor => 2,
        }
    }
}

/// The call that makes the process aware of scaling.
#[derive(Debug, PartialEq, Eq)]
pub enum Enable<'a, S, E> {
    /// Call this entry point of the scaling library with this level.
    SetAwareness(&'a S, Awareness),
    /// Call this entry point of the baseline library, which takes nothing.
    SetAware(&'a E),
}

/// The place to read the pixels per inch from.
#[derive(Debug, PartialEq, Eq)]
pub enum Source<'a, G> {
    /// The one setting of the whole desktop.
    Global,
    /// The monitor that shows the surface, read through this entry point.
    Monitor(&'a G),
}

/// The call that enabling makes: the finest level through the scaling
/// library where that can be set, else the baseline call.
pub open spec fn enabling<'a, S, G, E>(caps: &'a CapabilitySet<S, G, E>) -> Enable<'a, S, E> {
    match caps.set_process_dpi_awareness {
        Some(set_awareness) => Enable::SetAwareness(&set_awareness, Awareness::PerMonitor),
        None => Enable::SetAware(&caps.set_process_dpi_aware),
    }
}

/// The place that a query about a surface reads: the monitor of the surface
/// where there is a surface to ask and an entry point to ask through, else
/// the setting of the whole desktop.
pub open spec fn source_for<'a, S, G, E>(caps: &'a CapabilitySet<S, G, E>, surface: Surface) -> Source<'a, G> {
    match caps.get_dpi_for_monitor {
        Some(get_dpi) if !surface.means_desktop() => Source::Monitor(&get_dpi),
        _ => Source::Global,
    }
}

/// Says which call tells the system that this process scales its own
/// drawing. The caller makes the call; making it again is harmless.
pub fn enable_dpi<'a, S, G, E>(caps: &'a CapabilitySet<S, G, E>) -> (call: Enable<'a, S, E>)
    ensures
        call == enabling(caps),
{
    match &caps.set_process_dpi_awareness {
        Some(set_awareness) => Enable::SetAwareness(set_awareness, Awareness::PerMonitor),
        None => Enable::SetAware(&caps.set_process_dpi_aware),
    }
}

/// Says where to read the scale of the primary desktop: where a query about
/// no surface reads it.
pub fn desktop_dpi<'a, S, G, E>(caps: &'a CapabilitySet<S, G, E>) -> (source: Source<'a, G>)
    ensures
        source == source_for(caps, Surface::Absent),
        source is Global,
{
    get_dpi_for(caps, Surface::Absent)
}

/// Says where to read the scale of the desktop that a surface is on. What is
/// read there becomes a scale factor through
/// [`ScaleFactor::from_reading`](crate::scale::ScaleFactor::from_reading).
pub fn get_dpi_for<'a, S, G, E>(caps: &'a CapabilitySet<S, G, E>, surface: Surface) -> (source: Source<'a, G>)
    ensures
        source == source_for(caps, surface),
{
    match (surface, &caps.get_dpi_for_monitor) {
        (Surface::Present, Some(get_dpi)) => Source::Monitor(get_dpi),
        _ => Source::Global,
    }
}

/// A query about no surface, or about one that cannot answer, reads what the
/// desktop query reads.
pub proof fn lemma_no_surface_means_desktop<S, G, E>(caps: &CapabilitySet<S, G, E>, surface: Surface)
    requires
        surface.means_desktop(),
    ensures
        source_for(caps, surface) == source_for(caps, Surface::Absent),
        source_for(caps, surface) is Global,
{
}

/// Where no monitor can be asked there is one scale for all surfaces: any
/// two of them read the same place, the setting of the whole desktop.
pub proof fn lemma_one_scale_without_monitor_query<S, G, E>(
    caps: &CapabilitySet<S, G, E>,
    first: Surface,
    second: Surface,
)
    requires
        caps.get_dpi_for_monitor is None,
    ensures
        source_for(caps, first) == source_for(caps, second),
        source_for(caps, first) is Global,
{
}

/// Where a query reads depends on the monitor entry point and on the
/// surface alone. Two capability sets that differ in nothing but the entry
/// points for awareness read the same places, so nothing that enabling calls
/// through is anything that a query goes by.
pub proof fn lemma_queries_go_by_the_monitor_query_alone<S1, E1, S2, E2, G>(
    first: &CapabilitySet<S1, G, E1>,
    second: &CapabilitySet<S2, G, E2>,
    surface: Surface,
)
    requires
        first.get_dpi_for_monitor == second.get_dpi_for_monitor,
    ensures
        source_for(first, surface) == source_for(second, surface),
{
}

} // verus!
