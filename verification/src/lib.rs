//! A per-sample moving-average audio filter with gain compensation.
//!
//! The crate is split in two parts that a plugin host drives:
//!
//! * [`params`] — the control-rate side: a single integer parameter (the
//!   averaging window length) with its normalized-value mapping and its
//!   display strings.
//! * [`engine`] — the audio-rate side: the sliding-window state machine
//!   that, per channel and per block, seeds, shifts and reports the
//!   averaging window for every input sample.
//!
//! Samples travel through the engine as opaque 32-bit patterns, so the
//! window bookkeeping (reset, seed, shift, which output slots are owed a
//! value) is proved here; the host adapter turns patterns back into audio
//! samples and applies the gain formula to each reported window.

pub mod engine;
pub mod params;
pub mod text;
