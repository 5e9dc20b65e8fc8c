//! Core logic of a terminal audio player: song records, looped playback
//! of decoded PCM, collection of decoded samples, input handling and the
//! text layout of the user interface.

pub mod playback;
pub mod block;
pub mod errors;
pub mod input;
pub mod layout;
pub mod media;
pub mod samples;
pub mod song;
pub mod waveform;
