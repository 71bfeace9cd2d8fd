//! Core logic of a small music-library player: the play queue and its
//! playback bookkeeping, the choice of output device, the scan that turns
//! album description files into catalogue rows, and the properties that
//! these operations keep together.

pub mod playlist;
pub mod play;
pub mod devices;
pub mod json;
pub mod scan;
pub mod laws;
pub mod scan_run;
