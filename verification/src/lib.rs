//! Decoder for PCEP (Path Computation Element Communication Protocol)
//! messages: raw bytes in, typed messages, objects, TLVs and ERO
//! sub-objects out.
//!
//! Every decoder is a function from an input slice to the decoded value and
//! the unconsumed suffix of the input, or to one of two errors: the input
//! ended too early (`Incomplete`), or it breaks the format (`Malformed`).
//! No decoder panics, and none reads past its input or past the window that
//! a declared length gives it.  The contract of each decoder equates its
//! result with a specification-level decoder over byte sequences.
//!
//! - `reader`: the primitive reads, which are nom's, and what is assumed of
//!   them;
//! - `common`: padding, version, addresses, and the attribute list;
//! - `tlvs`: the TLVs of object bodies;
//! - `subobjects`: the sub-objects of an explicit route;
//! - `objects`: the common object header and the object classes;
//! - `messages`: the common message header and the messages.

pub mod common;
pub mod error;
pub mod messages;
pub mod objects;
pub mod reader;
pub mod subobjects;
pub mod tlvs;
