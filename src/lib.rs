//! Builds the Hermit kernel from source for a package that links against
//! it: decides whether the kernel is needed, where its sources are, how the
//! kernel's own build is invoked, where the library lands, and which files
//! must trigger a rebuild. Alongside lie the data layouts of the kernel's
//! calling interface.
//!
//! All text handled here (paths, names, command arguments, tool output) is
//! held as bytes.

pub mod abi;
pub mod deps;
pub mod directive;
pub mod features;
pub mod invoke;
pub mod orchestrator;
pub mod text;
