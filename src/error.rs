//! One error channel for parse, conversion and engine failures.
use vstd::prelude::*;

verus! {

/// Which of the three failure families an error belongs to.
#[derive(Clone, Copy, Debug, PartialEq, Eq, Structural)]
pub enum ErrorKind {
    /// Malformed interchange text, discriminator or enumeration string.
    Parse,
    /// A coordinate-space conversion outside the conversion matrix.
    Conversion,
    /// The engine rejected a configuration.
    Engine,
}

/// An error as it crosses the boundary: its family and a readable message.
#[derive(Clone, Debug)]
pub struct SpdcError {
    pub kind: ErrorKind,
    pub message: String,
}

impl SpdcError {
    pub fn parse(message: String) -> (r: SpdcError)
        ensures
            r.kind == ErrorKind::Parse,
            r.message@ == message@,
    {
        SpdcError { kind: ErrorKind::Parse, message }
    }

    pub fn conversion(message: String) -> (r: SpdcError)
        ensures
            r.kind == ErrorKind::Conversion,
            r.message@ == message@,
    {
        SpdcError { kind: ErrorKind::Conversion, message }
    }

    /// Translate an engine failure, keeping the engine's message.
    pub fn from_engine(e: spdcalc::SPDCError) -> (r: SpdcError)
        ensures
            r.kind == ErrorKind::Engine,
            r.message@ == e.0@,
    {
        SpdcError { kind: ErrorKind::Engine, message: e.0 }
    }

    /// The message that the host sees.
    pub fn message(&self) -> (r: String)
        ensures
            r@ == self.message@,
    {
        self.message.clone()
    }
}

} // verus!
