//! Decoder and text renderers for compiled Aleo virtual-machine bytecode.
//!
//! The crate turns a byte buffer holding a compiled program into an in-memory
//! `Disassembler` tree (header, imports, mappings, structs, records and
//! functions) by one forward pass over a sequential byte cursor, and renders
//! that tree as an assembly-style listing or as a best-effort source-like
//! reconstruction.  Every decoding routine is specified against a spec-level
//! grammar function over the byte sequence, and every renderer against a
//! spec-level text function over the decoded tree.

pub mod bytecode;
pub mod components;
pub mod disassembler;
pub mod error;
pub mod laws;
pub mod text;
pub mod util;

pub use bytecode::ByteCode;
pub use disassembler::Disassembler;
pub use error::{DecodeError, DecodeErrorKind};
