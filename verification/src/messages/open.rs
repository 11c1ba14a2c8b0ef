//! The Open message.

use vstd::prelude::*;
use crate::messages::header::CommonHeader;
use crate::objects::open::OpenObject;
use crate::objects::open::OpenObjectView;

verus! {

/// An Open message: a common header and one Open object.
#[derive(Debug, PartialEq, Eq)]
pub struct Open {
    pub common_header: CommonHeader,
    pub open_object: OpenObject,
}

/// The value of an `Open` message.
pub struct OpenView {
    pub common_header: CommonHeader,
    pub open_object: OpenObjectView,
}

impl View for Open {
    type V = OpenView;

    open spec fn view(&self) -> OpenView {
        OpenView { common_header: self.common_header, open_object: self.open_object@ }
    }
}

impl Open {
    /// The Open message made of `common_header` and `open_object`.
    pub fn new(common_header: CommonHeader, open_object: OpenObject) -> (message: Open)
        ensures
            message.common_header == common_header,
            message.open_object == open_object,
    {
        Open { common_header, open_object }
    }
}

} // verus!
