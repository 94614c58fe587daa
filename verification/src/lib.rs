//! Streaming adapters that put a frame codec between a byte source and its reader.
//!
//! The adapters own a codec engine and the buffer of what the engine has
//! produced, and decide how much of it the reader gets and when to ask for
//! more input. They never touch the source themselves: the holder of an
//! adapter peeks the source and hands in what it sees, one cycle at a time,
//! so the same adapter serves a blocking reader and a cooperative one.

pub mod comp;
pub mod decomp;
pub mod engine;
pub mod error;
pub mod frame;
pub mod laws;
pub mod window;

pub use comp::{AsyncReadCompressor, PollStep, SourcePoll};
pub use decomp::{BufReadDecompressor, HeaderStep, ReadStep};
pub use engine::{Decoded, Decoder, Encoder};
pub use error::{Error, Fault};
pub use frame::{BlockMode, BlockSize, FrameInfo};
pub use window::{OutputBuffer, Window};
