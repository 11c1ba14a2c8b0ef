//! ERO sub-objects: the hops of an explicit route.

pub mod header;
pub mod parser;
pub mod prefix;
pub mod sr;
pub mod types;
