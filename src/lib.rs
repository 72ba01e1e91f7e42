//! Build provenance: the version, revision, tag, status, toolchain and build
//! profile of a binary, held as one immutable value with a structured and a
//! single-line textual rendering.
pub mod version;

pub use version::BuildInfo;
