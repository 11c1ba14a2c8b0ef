//! PCEP objects: the common object header and one decoder per object class.
//!
//! The specification-level decoder of each object class is opaque, so that
//! proofs about sequences of objects stay small: `reveal` it to reason about
//! the bytes of one object.

pub mod bandwidth;
pub mod classes;
pub mod endpoints;
pub mod ero;
pub mod header;
pub mod lsp;
pub mod lspa;
pub mod metric;
pub mod open;
pub mod srp;
pub mod types;
