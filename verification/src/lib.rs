//! The decision logic of a small waveform editor and synthesiser: the sampled
//! waveform, its resampling when the number of sample points changes, the
//! editor's selection and drag state, and the play/stop transport.
//!
//! Sample values are a type parameter `T`; the application instantiates it with
//! its own floating-point amplitude type and keeps all arithmetic on amplitudes.

pub mod waveform;
pub mod editor;
pub mod playback;

