//! Compute pipeline manager for a GPU post-processing stage.
//!
//! The manager owns a compiled compute program, an output texture sized to the
//! presentation surface, and a small uniform buffer of per-frame parameters.
//! Each frame it binds a caller-supplied input image view together with the
//! output texture and the parameter buffer, refreshes the parameters from an
//! injected clock reading, and dispatches one workgroup grid that exactly
//! covers the output image.

pub mod compute;
pub mod gpu;
pub mod grid;
pub mod params;
