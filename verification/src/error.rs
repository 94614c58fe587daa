//! What can go wrong between an adapter and its codec engine.

use vstd::prelude::*;

verus! {

/// The diagnostic a codec engine hands out when it gives up: its own native
/// code, carried through untouched.
#[derive(Clone, Copy, Debug, PartialEq, Eq, Structural)]
pub struct Fault {
    pub code: u32,
}

/// Failure of an adapter operation.
#[derive(Clone, Copy, Debug, PartialEq, Eq, Structural)]
pub enum Error {
    /// The codec engine could not be set up.
    Init(Fault),
    /// The engine rejected its input while decoding.
    Decode(Fault),
    /// The engine failed while encoding or while closing the frame.
    Encode(Fault),
    /// The engine reported more input consumed than it had been offered.
    Overrun { offered: usize, claimed: usize },
}

impl Error {
    /// The engine's diagnostic, for the failures that carry one.
    pub fn fault(&self) -> (out: Option<Fault>)
        ensures
            out == (match *self {
                Error::Init(fault) => Some(fault),
                Error::Decode(fault) => Some(fault),
                Error::Encode(fault) => Some(fault),
                Error::Overrun { .. } => None,
            }),
    {
        match self {
            Error::Init(fault) => Some(*fault),
            Error::Decode(fault) => Some(*fault),
            Error::Encode(fault) => Some(*fault),
            Error::Overrun { .. } => None,
        }
    }
}

} // verus!
