//! The codec engines the adapters drive.
//!
//! An engine is a collaborator from outside this crate. Nothing is assumed
//! about what it answers: the adapters check every answer before acting on
//! it, and what they promise is stated over the answers the engine's own
//! contract allows.

use vstd::prelude::*;
use crate::error::Fault;
use crate::frame::FrameInfo;

verus! {

/// What a decoding engine made of one slice of input.
pub struct Decoded {
    /// How many bytes from the front of the input it took.
    pub consumed: usize,
    /// The bytes it decoded from them, in order.
    pub output: Vec<u8>,
}

/// A decoding engine: frame bytes in, content bytes out.
pub trait Decoder: Sized {
    /// A fresh engine, at the start of a frame.
    fn create() -> Result<Self, Fault>;

    /// Attaches the dictionary the frame was encoded with.
    fn set_dict(&mut self, dict: &[u8]);

    /// Switches header-only mode: while it is on, the engine parses the frame
    /// header and leaves the frame body alone.
    fn header_only(&mut self, on: bool);

    /// The frame header, once the engine has parsed it.
    fn frame_info(&self) -> Option<FrameInfo>;

    /// Decodes from the front of `input`.
    fn decode(&mut self, input: &[u8]) -> Result<Decoded, Fault>;
}

/// An encoding engine: content bytes in, frame bytes out.
pub trait Encoder: Sized {
    /// Compression settings, handed to the engine as they are.
    type Preferences;

    /// A fresh engine, before the frame has begun.
    fn create(prefs: Self::Preferences) -> Result<Self, Fault>;

    /// A fresh engine that encodes against `dict`.
    fn create_with_dict(prefs: Self::Preferences, dict: &[u8]) -> Result<Self, Fault>;

    /// Takes all of `input` and returns the frame bytes that became ready.
    fn encode(&mut self, input: &[u8]) -> Result<Vec<u8>, Fault>;

    /// Closes the frame and returns the bytes that were still held back.
    fn finish(&mut self) -> Result<Vec<u8>, Fault>;
}

} // verus!
