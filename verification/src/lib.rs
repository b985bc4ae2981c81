//! Streaming short-time Fourier transform: the sample buffer and column
//! protocol of the engine, and the names of its apodization windows.
//!
//! Samples arrive in batches of any size. The engine keeps them in a ring,
//! hands out the frame of the next column without consuming it, and on
//! request steps forward by less than a frame, so that consecutive frames
//! overlap.

pub mod ring;
pub mod stft;
pub mod window_type;

pub use stft::{Stream, STFT};
pub use window_type::WindowType;
