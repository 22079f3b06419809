//! The error taxonomy of the decoder.
//!
//! Every decoding routine either produces a value or aborts with a
//! `DecodeError` carrying the kind of fault and the byte offset at which the
//! failing read began.  No partial results are produced.

use vstd::prelude::*;

verus! {

/// What went wrong while decoding a byte stream.
#[derive(Clone, Copy, Debug, PartialEq, Eq, Structural)]
pub enum DecodeErrorKind {
    /// A read ran past the end of the buffer.
    Truncated,
    /// An identifier's byte run is not valid UTF-8.
    InvalidUtf8,
    /// A tag (opcode, type, attribute, component kind or literal kind) lies
    /// outside its defined range, or is incompatible with its context.
    UnknownTag,
    /// A grammar branch that is structurally present but whose shape is not
    /// specified (closure and finalize register declarations, record or
    /// external-record attributes on plain function registers).
    UnsupportedConstruct,
    /// A structurally inconsistent field, such as a cast argument count
    /// outside 1 to 8 or a nonzero cast separator byte.
    StructuralMismatch,
}

/// A decoding failure: its kind together with the byte offset at which the
/// failing read began.
#[derive(Clone, Copy, Debug, PartialEq, Eq, Structural)]
pub struct DecodeError {
    pub kind: DecodeErrorKind,
    pub offset: usize,
}

/// The error produced when the read beginning at byte offset `pos` fails
/// with kind `kind`.
pub open spec fn spec_err(kind: DecodeErrorKind, pos: int) -> DecodeError {
    DecodeError { kind, offset: pos as usize }
}

} // verus!
