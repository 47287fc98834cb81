//! The capability set: which scaling entry points the running system offers.
//!
//! Two libraries are searched. The scaling library and both of its entry
//! points are optional: what is missing there narrows the choice of strategy
//! and nothing else. The baseline library and its one entry point are
//! required: without them no strategy is left, and probing fails.

use vstd::prelude::*;

verus! {

/// What looking for the scaling library has given.
pub enum ScalingLibrary<S, G> {
    /// The library is not there.
    Missing,
    /// The library is there, with what was found of its two entry points.
    Loaded {
        set_process_dpi_awareness: Option<S>,
        get_dpi_for_monitor: Option<G>,
    },
}

/// What looking for the baseline library has given.
pub enum BaselineLibrary<E> {
    /// The library is not there.
    Missing,
    /// The library is there, with its entry point where that was found.
    Loaded(Option<E>),
}

/// The entry points that were found, each as a handle that the caller can
/// call through.
pub struct CapabilitySet<S, G, E> {
    /// Declares how far the process scales its own drawing.
    pub set_process_dpi_awareness: Option<S>,
    /// Reads the pixels per inch of one monitor.
    pub get_dpi_for_monitor: Option<G>,
    /// Declares that the whole process scales its own drawing.
    pub set_process_dpi_aware: E,
}

/// Why probing failed. Each reason means that the system is not one that
/// this library supports.
#[derive(Debug, Clone, Copy, PartialEq, Eq, Structural)]
pub enum ProbeError {
    /// The baseline library could not be loaded.
    BaselineLibraryMissing,
    /// The baseline library has no entry point for whole-process awareness.
    BaselineEntryMissing,
}

impl ProbeError {
    /// A sentence for the one who has to read the failure.
    pub fn message(&self) -> (text: &'static str)
        ensures
            text@ == match *self {
                ProbeError::BaselineLibraryMissing => "the baseline interface library could not be loaded"@,
                ProbeError::BaselineEntryMissing => "the baseline interface library lacks the process awareness entry point"@,
            },
    {
        match self {
            ProbeError::BaselineLibraryMissing => "the baseline interface library could not be loaded",
            ProbeError::BaselineEntryMissing => "the baseline interface library lacks the process awareness entry point",
        }
    }
}

/// The handle for setting the awareness level that a lookup has given: none
/// where the scaling library is missing.
pub open spec fn found_set_process_dpi_awareness<S, G>(scaling: ScalingLibrary<S, G>) -> Option<S> {
    match scaling {
        ScalingLibrary::Missing => None,
        ScalingLibrary::Loaded { set_process_dpi_awareness, .. } => set_process_dpi_awareness,
    }
}

/// The handle for reading a monitor that a lookup has given: none where the
/// scaling library is missing.
pub open spec fn found_get_dpi_for_monitor<S, G>(scaling: ScalingLibrary<S, G>) -> Option<G> {
    match scaling {
        ScalingLibrary::Missing => None,
        ScalingLibrary::Loaded { get_dpi_for_monitor, .. } => get_dpi_for_monitor,
    }
}

/// What probing makes of the two lookups.
pub open spec fn probed<S, G, E>(
    scaling: ScalingLibrary<S, G>,
    baseline: BaselineLibrary<E>,
) -> Result<CapabilitySet<S, G, E>, ProbeError> {
    match baseline {
        BaselineLibrary::Missing => Err(ProbeError::BaselineLibraryMissing),
        BaselineLibrary::Loaded(None) => Err(ProbeError::BaselineEntryMissing),
        BaselineLibrary::Loaded(Some(entry)) => Ok(
            CapabilitySet {
                set_process_dpi_awareness: found_set_process_dpi_awareness(scaling),
                get_dpi_for_monitor: found_get_dpi_for_monitor(scaling),
                set_process_dpi_aware: entry,
            },
        ),
    }
}

/// Builds the capability set from what the two lookups have given.
///
/// A missing scaling library, or a missing entry point in it, leaves that
/// capability absent. A missing baseline library or entry point is an error,
/// whatever the scaling library offers.
pub fn probe<S, G, E>(scaling: ScalingLibrary<S, G>, baseline: BaselineLibrary<E>) -> (outcome: Result<
    CapabilitySet<S, G, E>,
    ProbeError,
>)
    ensures
        outcome == probed(scaling, baseline),
        outcome is Ok <==> baseline matches BaselineLibrary::Loaded(Some(_)),
{
    let set_process_dpi_aware = match baseline {
        BaselineLibrary::Missing => {
            return Err(ProbeError::BaselineLibraryMissing);
        },
        BaselineLibrary::Loaded(None) => {
            return Err(ProbeError::BaselineEntryMissing);
        },
        BaselineLibrary::Loaded(Some(entry)) => entry,
    };
    match scaling {
        ScalingLibrary::Missing => Ok(
            CapabilitySet {
                set_process_dpi_awareness: None,
                get_dpi_for_monitor: None,
                set_process_dpi_aware,
            },
        ),
        ScalingLibrary::Loaded { set_process_dpi_awareness, get_dpi_for_monitor } => Ok(
            CapabilitySet { set_process_dpi_awareness, get_dpi_for_monitor, set_process_dpi_aware },
        ),
    }
}

} // verus!
