//! The Keepalive message.

use vstd::prelude::*;
use vstd::std_specs::convert::FromSpecImpl;
use crate::messages::header::CommonHeader;

verus! {

/// A Keepalive message: a common header and nothing else.
#[derive(Debug, PartialEq, Eq, Clone, Copy, Structural)]
pub struct KeepAlive {
    pub common_header: CommonHeader,
}

impl FromSpecImpl<CommonHeader> for KeepAlive {
    open spec fn obeys_from_spec() -> bool {
        true
    }

    open spec fn from_spec(common_header: CommonHeader) -> KeepAlive {
        KeepAlive { common_header }
    }
}

impl From<CommonHeader> for KeepAlive {
    /// The Keepalive message that `common_header` heads.
    fn from(common_header: CommonHeader) -> (message: KeepAlive) {
        KeepAlive { common_header }
    }
}

} // verus!
