//! The Initiate message (PCInitiate).

use vstd::prelude::*;
use crate::common::IntendedAttrList;
use crate::common::IntendedAttrListView;
use crate::common::optional;
use crate::common::spec_optional;
use crate::error::Decoded;
use crate::error::SpecDecoded;
use crate::error::yields_view;
use crate::messages::header::CommonHeader;
use crate::objects::endpoints::EndPointsObject;
use crate::objects::ero::EroObject;
use crate::objects::ero::EroObjectView;
use crate::objects::lsp::LspObject;
use crate::objects::lsp::LspObjectView;
use crate::objects::srp::SrpObject;
use crate::objects::srp::SrpObjectView;

verus! {

/// An Initiate message: a common header and a list of PCE-initiated LSP
/// requests.
#[derive(Debug, PartialEq, Eq)]
pub struct PCInitiate {
    pub common_header: CommonHeader,
    pub pce_initiated_lsp_lst: PceInitiatedLspList,
}

/// The value of a `PCInitiate`.
pub struct PCInitiateView {
    pub common_header: CommonHeader,
    pub pce_initiated_lsp_lst: Seq<PceInitiatedLspRequestView>,
}

impl View for PCInitiate {
    type V = PCInitiateView;

    open spec fn view(&self) -> PCInitiateView {
        PCInitiateView {
            common_header: self.common_header,
            pce_initiated_lsp_lst: self.pce_initiated_lsp_lst@,
        }
    }
}

impl PCInitiate {
    /// The body of an Initiate message at the front of `s`, under the
    /// header of a message whose header is not known yet.
    pub open spec fn spec_parse_pcinitiate_message(s: Seq<u8>) -> (Seq<u8>, PCInitiateView) {
        let (rest, requests) = PceInitiatedLspList::spec_parse_pce_initiated_lsp_list(s);
        (
            rest,
            PCInitiateView {
                common_header: CommonHeader::spec_default(),
                pce_initiated_lsp_lst: requests,
            },
        )
    }

    /// Decodes the body of an Initiate message: the bytes after the common
    /// header.  The message is returned under the default header, for the
    /// caller to replace by the one it decoded.  This never fails: the
    /// request list ends where no further request decodes, and what is
    /// returned as left starts there.
    pub fn parse_pcinitiate_message<'a>(input: &'a [u8]) -> (r: Decoded<'a, PCInitiate>)
        ensures
            r matches Ok((rest, message)) && (rest@, message@)
                == PCInitiate::spec_parse_pcinitiate_message(input@),
    {
        let (remaining, pce_initiated_lsp_lst) = PceInitiatedLspList::parse_pce_initiated_lsp_list(
            input,
        )?;
        let pc_initiate_message = PCInitiate {
            common_header: CommonHeader::default(),
            pce_initiated_lsp_lst,
        };
        Ok((remaining, pc_initiate_message))
    }
}

/// The LSP requests of an Initiate message, in wire order.
#[derive(Debug, PartialEq, Eq)]
pub struct PceInitiatedLspList {
    pub lsp_requests: Vec<PceInitiatedLspRequest>,
}

/// The values of a list of LSP requests, in the order of the list.
pub open spec fn lsp_request_views(requests: Seq<PceInitiatedLspRequest>) -> Seq<
    PceInitiatedLspRequestView,
> {
    requests.map_values(|request: PceInitiatedLspRequest| request@)
}

impl View for PceInitiatedLspList {
    type V = Seq<PceInitiatedLspRequestView>;

    open spec fn view(&self) -> Seq<PceInitiatedLspRequestView> {
        lsp_request_views(self.lsp_requests@)
    }
}

impl PceInitiatedLspList {
    /// The LSP requests at the front of `s`, up to the first position
    /// where none decodes: the bytes after them, then the requests in wire
    /// order.
    pub open spec fn spec_parse_pce_initiated_lsp_list(s: Seq<u8>) -> (
        Seq<u8>,
        Seq<PceInitiatedLspRequestView>,
    )
        decreases s.len(),
    {
        if s.len() == 0 {
            (s, Seq::empty())
        } else {
            match PceInitiatedLspRequest::spec_parse_pce_initiated_lsp_request(s) {
                Ok((rest, request)) => {
                    if rest.len() < s.len() {
                        let (left, requests) = Self::spec_parse_pce_initiated_lsp_list(rest);
                        (left, seq![request] + requests)
                    } else {
                        (rest, seq![request])
                    }
                },
                Err(_) => (s, Seq::empty()),
            }
        }
    }

    /// Decodes LSP requests until the input is used up or no further
    /// request decodes, and returns them with the bytes that are left.
    pub fn parse_pce_initiated_lsp_list<'a>(input: &'a [u8]) -> (r: Decoded<
        'a,
        PceInitiatedLspList,
    >)
        ensures
            r matches Ok((rest, list)) && (rest@, list@)
                == PceInitiatedLspList::spec_parse_pce_initiated_lsp_list(input@),
    {
        let mut lsp_requests: Vec<PceInitiatedLspRequest> = Vec::new();
        let mut left = input;
        assert(lsp_request_views(lsp_requests@) + Self::spec_parse_pce_initiated_lsp_list(
            input@,
        ).1 =~= Self::spec_parse_pce_initiated_lsp_list(input@).1);
        while left.len() > 0
            invariant
                Self::spec_parse_pce_initiated_lsp_list(input@) == (
                    Self::spec_parse_pce_initiated_lsp_list(left@).0,
                    lsp_request_views(lsp_requests@) + Self::spec_parse_pce_initiated_lsp_list(
                        left@,
                    ).1,
                ),
            ensures
                Self::spec_parse_pce_initiated_lsp_list(left@) == (
                    left@,
                    Seq::<PceInitiatedLspRequestView>::empty(),
                ),
            decreases left@.len(),
        {
            match PceInitiatedLspRequest::parse_pce_initiated_lsp_request(left) {
                Ok((remaining, pce_init_lsp_req)) => {
                    proof {
                        let more = Self::spec_parse_pce_initiated_lsp_list(remaining@).1;
                        assert(lsp_request_views(lsp_requests@.push(pce_init_lsp_req))
                            =~= lsp_request_views(lsp_requests@) + seq![pce_init_lsp_req@]);
                        assert(lsp_request_views(lsp_requests@.push(pce_init_lsp_req)) + more
                            =~= lsp_request_views(lsp_requests@) + (seq![pce_init_lsp_req@]
                            + more));
                    }
                    left = remaining;
                    lsp_requests.push(pce_init_lsp_req);
                },
                Err(_e) => {
                    break ;
                },
            }
        }
        assert(lsp_request_views(lsp_requests@) + Seq::<PceInitiatedLspRequestView>::empty()
            =~= lsp_request_views(lsp_requests@));
        let pce_init_lsp_list = PceInitiatedLspList { lsp_requests };
        Ok((left, pce_init_lsp_list))
    }
}

/// One PCE-initiated LSP request: the instantiation of an LSP, or the
/// deletion of one.
#[derive(Debug, PartialEq, Eq)]
pub enum PceInitiatedLspRequest {
    LspInstantiation(PceInitiateLspInstatiation),
    LspDeletion(PceInitiatedLspDeletion),
}

/// The value of a `PceInitiatedLspRequest`.
pub enum PceInitiatedLspRequestView {
    LspInstantiation(PceInitiateLspInstatiationView),
    LspDeletion(PceInitiatedLspDeletionView),
}

impl View for PceInitiatedLspRequest {
    type V = PceInitiatedLspRequestView;

    open spec fn view(&self) -> PceInitiatedLspRequestView {
        match *self {
            PceInitiatedLspRequest::LspInstantiation(request) => {
                PceInitiatedLspRequestView::LspInstantiation(request@)
            },
            PceInitiatedLspRequest::LspDeletion(request) => PceInitiatedLspRequestView::LspDeletion(
                request@,
            ),
        }
    }
}

impl PceInitiatedLspRequest {
    /// The LSP request at the front of `s`.  The SRP object that starts
    /// the request decides by its remove flag which of the two shapes the
    /// request has; the request, SRP object included, is then decoded in
    /// that shape.
    #[verifier::opaque]
    pub open spec fn spec_parse_pce_initiated_lsp_request(s: Seq<u8>) -> SpecDecoded<
        PceInitiatedLspRequestView,
    > {
        match SrpObject::spec_parse_srp_object(s) {
            Err(e) => Err(e),
            Ok((_, srp_object)) => {
                if srp_object.flag_remove() {
                    match PceInitiatedLspDeletion::spec_parse_initiated_deletion(s) {
                        Err(e) => Err(e),
                        Ok((rest, request)) => Ok(
                            (rest, PceInitiatedLspRequestView::LspDeletion(request)),
                        ),
                    }
                } else {
                    match PceInitiateLspInstatiation::spec_parse_pce_initiated_lsp_instantiation(
                        s,
                    ) {
                        Err(e) => Err(e),
                        Ok((rest, request)) => Ok(
                            (rest, PceInitiatedLspRequestView::LspInstantiation(request)),
                        ),
                    }
                }
            },
        }
    }

    /// Decodes one LSP request and returns it with the bytes after it.
    pub fn parse_pce_initiated_lsp_request<'a>(input: &'a [u8]) -> (r: Decoded<
        'a,
        PceInitiatedLspRequest,
    >)
        ensures
            yields_view(r, PceInitiatedLspRequest::spec_parse_pce_initiated_lsp_request(input@)),
            r matches Ok((rest, _)) ==> rest@.len() + 8 <= input@.len(),
    {
        reveal(PceInitiatedLspRequest::spec_parse_pce_initiated_lsp_request);
        let (_input, srp_object) = SrpObject::parse_srp_object(input)?;
        if srp_object.flag_remove() {
            let (remaining, pce_init_lsp_deletion) =
                PceInitiatedLspDeletion::parse_initiated_deletion(input)?;
            Ok((remaining, PceInitiatedLspRequest::LspDeletion(pce_init_lsp_deletion)))
        } else {
            let (remaining, pce_init_lsp_instantiation) =
                PceInitiateLspInstatiation::parse_pce_initiated_lsp_instantiation(input)?;
            Ok((remaining, PceInitiatedLspRequest::LspInstantiation(pce_init_lsp_instantiation)))
        }
    }
}

/// The request to set up an LSP: SRP object, LSP object, the end points
/// where they are given, the ERO, and the attributes.
#[derive(Debug, PartialEq, Eq)]
pub struct PceInitiateLspInstatiation {
    pub srp_object: SrpObject,
    pub lsp_object: LspObject,
    pub endpoints_object: Option<EndPointsObject>,
    pub ero_object: EroObject,
    pub attr_lst: Option<IntendedAttrList>,
}

/// The value of a `PceInitiateLspInstatiation`.
pub struct PceInitiateLspInstatiationView {
    pub srp_object: SrpObjectView,
    pub lsp_object: LspObjectView,
    pub endpoints_object: Option<EndPointsObject>,
    pub ero_object: EroObjectView,
    pub attr_lst: Option<IntendedAttrListView>,
}

impl View for PceInitiateLspInstatiation {
    type V = PceInitiateLspInstatiationView;

    open spec fn view(&self) -> PceInitiateLspInstatiationView {
        PceInitiateLspInstatiationView {
            srp_object: self.srp_object@,
            lsp_object: self.lsp_object@,
            endpoints_object: self.endpoints_object,
            ero_object: self.ero_object@,
            attr_lst: match self.attr_lst {
                Some(list) => Some(list@),
                None => None,
            },
        }
    }
}

impl PceInitiateLspInstatiation {
    /// The instantiation request at the front of `s`: an SRP object, an
    /// LSP object, an End-Points object where one decodes, an ERO, and
    /// the attribute list, each where the one before it stopped.
    pub open spec fn spec_parse_pce_initiated_lsp_instantiation(s: Seq<u8>) -> SpecDecoded<
        PceInitiateLspInstatiationView,
    > {
        match SrpObject::spec_parse_srp_object(s) {
            Err(e) => Err(e),
            Ok((after_srp, srp_object)) => match LspObject::spec_parse_lsp_object(after_srp) {
                Err(e) => Err(e),
                Ok((after_lsp, lsp_object)) => {
                    let (after_endpoints, endpoints_object) = spec_optional(
                        after_lsp,
                        EndPointsObject::spec_parse_endpoints_object(after_lsp),
                    );
                    match EroObject::spec_parse_ero_object(after_endpoints) {
                        Err(e) => Err(e),
                        Ok((after_ero, ero_object)) => {
                            let (rest, attr_lst) = IntendedAttrList::spec_parse_intended_attr_list(
                                after_ero,
                            );
                            Ok(
                                (
                                    rest,
                                    PceInitiateLspInstatiationView {
                                        srp_object,
                                        lsp_object,
                                        endpoints_object,
                                        ero_object,
                                        attr_lst: Some(attr_lst),
                                    },
                                ),
                            )
                        },
                    }
                },
            },
        }
    }

    /// Decodes an instantiation request and returns it with the bytes
    /// after it.
    pub fn parse_pce_initiated_lsp_instantiation<'a>(input: &'a [u8]) -> (r: Decoded<
        'a,
        PceInitiateLspInstatiation,
    >)
        ensures
            yields_view(
                r,
                PceInitiateLspInstatiation::spec_parse_pce_initiated_lsp_instantiation(input@),
            ),
            r matches Ok((rest, _)) ==> rest@.len() + 12 <= input@.len(),
    {
        let (remaining, srp_object) = SrpObject::parse_srp_object(input)?;
        let (remaining, lsp_object) = LspObject::parse_lsp_object(remaining)?;
        let (remaining, endpoints_object) = optional(
            remaining,
            EndPointsObject::parse_endpoints_object(remaining),
        );
        let (remaining, ero_object) = EroObject::parse_ero_object(remaining)?;
        let (remaining, attr_lst) = optional(
            remaining,
            IntendedAttrList::parse_intended_attr_list(remaining),
        );
        let pce_init_lsp_instantiation = PceInitiateLspInstatiation {
            srp_object,
            lsp_object,
            endpoints_object,
            ero_object,
            attr_lst,
        };
        Ok((remaining, pce_init_lsp_instantiation))
    }
}

/// The request to remove an LSP: SRP object and LSP object.
#[derive(Debug, PartialEq, Eq)]
pub struct PceInitiatedLspDeletion {
    pub srp_object: SrpObject,
    pub lsp_object: LspObject,
}

/// The value of a `PceInitiatedLspDeletion`.
pub struct PceInitiatedLspDeletionView {
    pub srp_object: SrpObjectView,
    pub lsp_object: LspObjectView,
}

impl View for PceInitiatedLspDeletion {
    type V = PceInitiatedLspDeletionView;

    open spec fn view(&self) -> PceInitiatedLspDeletionView {
        PceInitiatedLspDeletionView {
            srp_object: self.srp_object@,
            lsp_object: self.lsp_object@,
        }
    }
}

impl PceInitiatedLspDeletion {
    /// The deletion request at the front of `s`: an SRP object, then an
    /// LSP object.
    pub open spec fn spec_parse_initiated_deletion(s: Seq<u8>) -> SpecDecoded<
        PceInitiatedLspDeletionView,
    > {
        match SrpObject::spec_parse_srp_object(s) {
            Err(e) => Err(e),
            Ok((after_srp, srp_object)) => match LspObject::spec_parse_lsp_object(after_srp) {
                Err(e) => Err(e),
                Ok((rest, lsp_object)) => Ok(
                    (rest, PceInitiatedLspDeletionView { srp_object, lsp_object }),
                ),
            },
        }
    }

    /// Decodes a deletion request and returns it with the bytes after it.
    pub fn parse_initiated_deletion<'a>(input: &'a [u8]) -> (r: Decoded<
        'a,
        PceInitiatedLspDeletion,
    >)
        ensures
            yields_view(r, PceInitiatedLspDeletion::spec_parse_initiated_deletion(input@)),
            r matches Ok((rest, _)) ==> rest@.len() + 8 <= input@.len(),
    {
        let (remaining, srp_object) = SrpObject::parse_srp_object(input)?;
        let (remaining, lsp_object) = LspObject::parse_lsp_object(remaining)?;
        let pce_init_lsp_deletion = PceInitiatedLspDeletion { srp_object, lsp_object };
        Ok((remaining, pce_init_lsp_deletion))
    }
}

} // verus!
