//! A small release-installer library: it picks the first asset of a release,
//! decides how the downloaded bytes are materialized on disk, and turns a
//! release's markdown notes into a flat text block for the terminal.

pub mod errors;
pub mod installer;
pub mod notes;
pub mod release;
