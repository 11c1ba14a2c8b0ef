//! TLVs: the type-length-value records inside object bodies.

pub mod tlv_parser;
pub mod tlv_set;
pub mod types;
