//! Binaural rendering of positioned mono sounds, as a verified core.
//!
//! The library holds every decision of the streaming renderer: how raw
//! samples are framed, in which order the propagation effects run, when a
//! frame is refilled, and how the stereo result is interleaved. Samples and
//! coordinates are carried as IEEE-754 binary32 bit patterns; the numeric
//! work itself is asked of the host, one step at a time.

pub mod effects;
pub mod frame;
pub mod mesh;
pub mod playback;
pub mod prelude;
pub mod sample;
pub mod settings;
pub mod source;
pub mod spatial;
