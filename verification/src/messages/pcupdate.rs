//! The Update message (PCUpd).

use vstd::prelude::*;
use crate::common::IntendedAttrList;
use crate::common::IntendedAttrListView;
use crate::error::Decoded;
use crate::error::SpecDecoded;
use crate::error::yields_view;
use crate::messages::header::CommonHeader;
use crate::objects::ero::EroObject;
use crate::objects::ero::EroObjectView;
use crate::objects::lsp::LspObject;
use crate::objects::lsp::LspObjectView;
use crate::objects::srp::SrpObject;
use crate::objects::srp::SrpObjectView;

verus! {

/// An Update message: a common header and a list of update requests.
#[derive(Debug, PartialEq, Eq)]
pub struct PcepUpdate {
    pub common_header: CommonHeader,
    pub update_request_lst: UpdateRequestList,
}

/// The value of a `PcepUpdate`.
pub struct PcepUpdateView {
    pub common_header: CommonHeader,
    pub update_request_lst: Seq<UpdateRequestView>,
}

impl View for PcepUpdate {
    type V = PcepUpdateView;

    open spec fn view(&self) -> PcepUpdateView {
        PcepUpdateView {
            common_header: self.common_header,
            update_request_lst: self.update_request_lst@,
        }
    }
}

impl PcepUpdate {
    /// The body of an Update message at the front of `s`, under the header
    /// of a message whose header is not known yet.
    pub open spec fn spec_parse_update_message(s: Seq<u8>) -> (Seq<u8>, PcepUpdateView) {
        let (rest, requests) = UpdateRequestList::spec_parse_update_request_list(s);
        (
            rest,
            PcepUpdateView {
                common_header: CommonHeader::spec_default(),
                update_request_lst: requests,
            },
        )
    }

    /// Decodes the body of an Update message: the bytes after the common
    /// header.  The message is returned under the default header, for the
    /// caller to replace by the one it decoded.  This never fails: the
    /// request list ends where no further request decodes, and what is
    /// returned as left starts there.
    pub fn parse_update_message<'a>(input: &'a [u8]) -> (r: Decoded<'a, PcepUpdate>)
        ensures
            r matches Ok((rest, message)) && (rest@, message@)
                == PcepUpdate::spec_parse_update_message(input@),
    {
        let (remaining, update_request_lst) = UpdateRequestList::parse_update_request_list(input)?;
        let pcep_update_msg = PcepUpdate {
            common_header: CommonHeader::default(),
            update_request_lst,
        };
        Ok((remaining, pcep_update_msg))
    }
}

/// The update requests of an Update message, in wire order.
#[derive(Debug, PartialEq, Eq)]
pub struct UpdateRequestList {
    pub update_request_lst: Vec<UpdateRequest>,
}

/// The values of a list of update requests, in the order of the list.
pub open spec fn update_request_views(requests: Seq<UpdateRequest>) -> Seq<UpdateRequestView> {
    requests.map_values(|request: UpdateRequest| request@)
}

impl View for UpdateRequestList {
    type V = Seq<UpdateRequestView>;

    open spec fn view(&self) -> Seq<UpdateRequestView> {
        update_request_views(self.update_request_lst@)
    }
}

impl UpdateRequestList {
    /// The update requests at the front of `s`, up to the first position
    /// where none decodes: the bytes after them, then the requests in wire
    /// order.
    pub open spec fn spec_parse_update_request_list(s: Seq<u8>) -> (
        Seq<u8>,
        Seq<UpdateRequestView>,
    )
        decreases s.len(),
    {
        if s.len() == 0 {
            (s, Seq::empty())
        } else {
            match UpdateRequest::spec_parse_update_request(s) {
                Ok((rest, request)) => {
                    if rest.len() < s.len() {
                        let (left, requests) = Self::spec_parse_update_request_list(rest);
                        (left, seq![request] + requests)
                    } else {
                        (rest, seq![request])
                    }
                },
                Err(_) => (s, Seq::empty()),
            }
        }
    }

    /// Decodes update requests until the input is used up or no further
    /// request decodes, and returns them with the bytes that are left.
    pub fn parse_update_request_list<'a>(input: &'a [u8]) -> (r: Decoded<'a, UpdateRequestList>)
        ensures
            r matches Ok((rest, list)) && (rest@, list@)
                == UpdateRequestList::spec_parse_update_request_list(input@),
    {
        let mut left = input;
        let mut requests: Vec<UpdateRequest> = Vec::new();
        assert(update_request_views(requests@) + Self::spec_parse_update_request_list(input@).1
            =~= Self::spec_parse_update_request_list(input@).1);
        while left.len() > 0
            invariant
                Self::spec_parse_update_request_list(input@) == (
                    Self::spec_parse_update_request_list(left@).0,
                    update_request_views(requests@) + Self::spec_parse_update_request_list(
                        left@,
                    ).1,
                ),
            ensures
                Self::spec_parse_update_request_list(left@) == (
                    left@,
                    Seq::<UpdateRequestView>::empty(),
                ),
            decreases left@.len(),
        {
            match UpdateRequest::parse_update_request(left) {
                Ok((remaining, update_req)) => {
                    proof {
                        let more = Self::spec_parse_update_request_list(remaining@).1;
                        assert(update_request_views(requests@.push(update_req))
                            =~= update_request_views(requests@) + seq![update_req@]);
                        assert(update_request_views(requests@.push(update_req)) + more
                            =~= update_request_views(requests@) + (seq![update_req@] + more));
                    }
                    left = remaining;
                    requests.push(update_req);
                },
                Err(_e) => {
                    break ;
                },
            }
        }
        assert(update_request_views(requests@) + Seq::<UpdateRequestView>::empty()
            =~= update_request_views(requests@));
        let update_req_lst = UpdateRequestList { update_request_lst: requests };
        Ok((left, update_req_lst))
    }
}

/// One update request: the SRP object, the LSP object, and the path.
#[derive(Debug, PartialEq, Eq)]
pub struct UpdateRequest {
    pub srp_object: SrpObject,
    pub lsp_object: LspObject,
    pub path: Path,
}

/// The value of an `UpdateRequest`.
pub struct UpdateRequestView {
    pub srp_object: SrpObjectView,
    pub lsp_object: LspObjectView,
    pub path: PathView,
}

impl View for UpdateRequest {
    type V = UpdateRequestView;

    open spec fn view(&self) -> UpdateRequestView {
        UpdateRequestView {
            srp_object: self.srp_object@,
            lsp_object: self.lsp_object@,
            path: self.path@,
        }
    }
}

impl UpdateRequest {
    /// The update request at the front of `s`: an SRP object, an LSP
    /// object and a path, each where the one before it stopped.
    #[verifier::opaque]
    pub open spec fn spec_parse_update_request(s: Seq<u8>) -> SpecDecoded<UpdateRequestView> {
        match SrpObject::spec_parse_srp_object(s) {
            Err(e) => Err(e),
            Ok((after_srp, srp_object)) => match LspObject::spec_parse_lsp_object(after_srp) {
                Err(e) => Err(e),
                Ok((after_lsp, lsp_object)) => match Path::spec_parse_path(after_lsp) {
                    Err(e) => Err(e),
                    Ok((rest, path)) => Ok(
                        (rest, UpdateRequestView { srp_object, lsp_object, path }),
                    ),
                },
            },
        }
    }

    /// Decodes one update request and returns it with the bytes after it.
    pub fn parse_update_request<'a>(input: &'a [u8]) -> (r: Decoded<'a, UpdateRequest>)
        ensures
            yields_view(r, UpdateRequest::spec_parse_update_request(input@)),
            r matches Ok((rest, _)) ==> rest@.len() + 12 <= input@.len(),
    {
        reveal(UpdateRequest::spec_parse_update_request);
        let (remaining, srp_object) = SrpObject::parse_srp_object(input)?;
        let (remaining, lsp_object) = LspObject::parse_lsp_object(remaining)?;
        let (remaining, path) = Path::parse_path(remaining)?;
        let update_request = UpdateRequest { srp_object, lsp_object, path };
        Ok((remaining, update_request))
    }
}

/// A path: the ERO that spells it, and its attributes.
#[derive(Debug, PartialEq, Eq)]
pub struct Path {
    pub intended_path: EroObject,
    pub intended_attr_lst: IntendedAttrList,
}

/// The value of a `Path`.
pub struct PathView {
    pub intended_path: EroObjectView,
    pub intended_attr_lst: IntendedAttrListView,
}

impl View for Path {
    type V = PathView;

    open spec fn view(&self) -> PathView {
        PathView {
            intended_path: self.intended_path@,
            intended_attr_lst: self.intended_attr_lst@,
        }
    }
}

impl Path {
    /// The path at the front of `s`: an ERO, then the attribute list.
    pub open spec fn spec_parse_path(s: Seq<u8>) -> SpecDecoded<PathView> {
        match EroObject::spec_parse_ero_object(s) {
            Err(e) => Err(e),
            Ok((after_ero, intended_path)) => {
                let (rest, intended_attr_lst) = IntendedAttrList::spec_parse_intended_attr_list(
                    after_ero,
                );
                Ok((rest, PathView { intended_path, intended_attr_lst }))
            },
        }
    }

    /// Decodes a path and returns it with the bytes after it.
    pub fn parse_path<'a>(input: &'a [u8]) -> (r: Decoded<'a, Path>)
        ensures
            yields_view(r, Path::spec_parse_path(input@)),
            r matches Ok((rest, _)) ==> rest@.len() + 4 <= input@.len(),
    {
        let (remaining, ero_object) = EroObject::parse_ero_object(input)?;
        let (remaining, intended_attr_lst) = IntendedAttrList::parse_intended_attr_list(
            remaining,
        )?;
        let path = Path { intended_path: ero_object, intended_attr_lst };
        Ok((remaining, path))
    }
}

} // verus!
