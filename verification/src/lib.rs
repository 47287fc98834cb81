//! Display scaling for graphical programs: which operating-system service to
//! ask for a scale factor, what to do when a finer service is missing, and
//! what a reading is worth.
//!
//! Nothing here talks to the operating system. Each platform family has a
//! module with the same three operations, `enable_dpi`, `desktop_dpi` and
//! `get_dpi_for`; they decide, and the caller carries the decision out.

pub mod capability;
pub mod linux;
pub mod macos;
pub mod scale;
pub mod surface;
pub mod windows;

pub use capability::{probe, BaselineLibrary, CapabilitySet, ProbeError, ScalingLibrary};
pub use scale::{Ratio, ScaleFactor, REFERENCE_DPI};
pub use surface::Surface;
