//! Decision logic of a playback monitor that silences audio during
//! advertisement breaks and restores it when regular content resumes.

pub mod laws;
pub mod monitor;
pub mod report;
pub mod snapshot;
pub mod timing;
pub mod volume;
