//! The safe core of a binding to the RtMidi realtime MIDI library.
//!
//! The native library is reached through functions that the caller hands to
//! each operation. This crate decides what is handed to the native side and
//! what its answers mean: it validates texts bound for C, turns the status
//! record of a native instance into a typed result, and keeps track of the
//! callback registered with an input.
use vstd::prelude::*;

pub mod api;
pub mod error;
pub mod ffi;
pub mod midi;
pub mod midi_in;
pub mod midi_out;

pub use api::RtMidiApi;
pub use error::{ErrorView, NulFailure, RtMidiError, Utf8Failure};
pub use ffi::{CallbackContext, Generation, NativeInstance, NativeStatus};
pub use midi_in::{CallbackChange, NativeMessage, RtMidiIn, RtMidiInArgs};
pub use midi_out::{RtMidiOut, RtMidiOutArgs};

verus! {

/// A MIDI input/output port identifier
pub type RtMidiPort = u32;

} // verus!
