use pcep::common::Version;
use pcep::error::DecodeError;
use pcep::messages::header::CommonHeader;
use pcep::messages::parse_message;
use pcep::messages::types::MessageType;
use pcep::messages::types::MessageTypeError;
use pcep::messages::Message;
use pcep::objects::bandwidth::BandwidthObject;
use pcep::objects::endpoints::EndPointsObject;
use pcep::objects::endpoints::Ipv4AddressesEndPoint;
use pcep::objects::ero::EroObject;
use pcep::objects::header::CommonObject;
use pcep::objects::lsp::LspObject;
use pcep::objects::lspa::LspaObject;
use pcep::objects::metric::MetricObject;
use pcep::objects::open::OpenObject;
use pcep::objects::srp::SrpObject;
use pcep::subobjects::header::SubObject;
use pcep::subobjects::parser::Parser as SubObjectParser;
use pcep::subobjects::prefix::Ipv4PrefixSubobject;
use pcep::subobjects::sr::Ipv4AdjNAI;
use pcep::subobjects::sr::NaiType;
use pcep::subobjects::sr::SrSubobject;
use pcep::tlvs::tlv_parser::Parser as TlvParser;
use pcep::tlvs::tlv_set::Ipv4LSPIndetifiersTLV;
use pcep::tlvs::tlv_set::SrPCECapabilityTLV;
use pcep::tlvs::tlv_set::StatefulPCECapabilityTLV;
use pcep::tlvs::tlv_set::SymbolicPathNameTLV;
use pcep::tlvs::tlv_set::UnknownTLV;

#[test]
fn common_header_needs_four_bytes() {
    let full: [u8; 4] = [0x20, 0x01, 0x00, 0x24];
    let mut len: usize = 0;
    while len < 4 {
        assert_eq!(
            CommonHeader::parse_common_header(&full[..len]),
            Err(DecodeError::Incomplete)
        );
        len += 1;
    }
    assert!(CommonHeader::parse_common_header(&full).is_ok());
}

#[test]
fn common_header_rejects_every_version_but_one() {
    let mut version: u8 = 0;
    while version < 8 {
        let input: [u8; 4] = [version << 5 | 0x03, 0x01, 0x00, 0x24];
        let decoded = CommonHeader::parse_common_header(&input);
        if version == 1 {
            let (_, header) = decoded.expect("version 1");
            assert_eq!(header.version, Version::One);
            assert_eq!(header.flags, 3);
        } else {
            assert_eq!(decoded, Err(DecodeError::Malformed));
        }
        version += 1;
    }
}

#[test]
fn short_header_of_unsupported_version_is_incomplete() {
    assert_eq!(
        CommonHeader::parse_common_header(&[0x40, 0x01, 0x00]),
        Err(DecodeError::Incomplete)
    );
}

#[test]
fn version_try_from_accepts_only_one() {
    assert_eq!(Version::try_from(1), Ok(Version::One));
    assert_eq!(Version::try_from(0), Err(DecodeError::Malformed));
    assert_eq!(Version::try_from(2), Err(DecodeError::Malformed));
    assert_eq!(Version::try_from(255), Err(DecodeError::Malformed));
}

#[test]
fn message_type_try_from_knows_its_codes() {
    assert_eq!(MessageType::try_from(1), Ok(MessageType::Open));
    assert_eq!(MessageType::try_from(2), Ok(MessageType::Keepalive));
    assert_eq!(MessageType::try_from(3), Ok(MessageType::PCReq));
    assert_eq!(MessageType::try_from(4), Ok(MessageType::PCRep));
    assert_eq!(MessageType::try_from(5), Ok(MessageType::PCNtf));
    assert_eq!(MessageType::try_from(6), Ok(MessageType::PCErr));
    assert_eq!(MessageType::try_from(7), Ok(MessageType::PCClose));
    assert_eq!(MessageType::try_from(10), Ok(MessageType::PCRpt));
    assert_eq!(MessageType::try_from(11), Ok(MessageType::PCUpd));
    assert_eq!(MessageType::try_from(12), Ok(MessageType::PCInitiate));
}

#[test]
fn message_type_try_from_reports_unknown_codes() {
    let unknown: [u8; 6] = [0, 8, 9, 13, 100, 255];
    for code in unknown {
        assert_eq!(
            MessageType::try_from(code),
            Err(MessageTypeError::UnknownMessageTypeError(code))
        );
        assert_eq!(MessageType::from_code(code), MessageType::UnKnown(code));
    }
    assert_eq!(MessageType::from_code(11), MessageType::PCUpd);
}

#[test]
fn unknown_message_type_is_no_decode_error() {
    let input: [u8; 6] = [0x20, 0x63, 0x00, 0x06, 0xaa, 0xbb];
    let (rest, header) = CommonHeader::parse_common_header(&input).expect("header");
    assert_eq!(header.message_type, MessageType::UnKnown(0x63));
    assert_eq!(rest, &input[4..]);
    let (rest, message) = parse_message(&input).expect("message");
    assert_eq!(message, Message::Unrecognized(header));
    assert_eq!(rest, &input[4..]);
}

#[test]
fn message_of_a_known_kind_without_decoder_is_unrecognized() {
    let input: [u8; 4] = [0x20, 0x0a, 0x00, 0x04];
    let (rest, message) = parse_message(&input).expect("message");
    assert!(rest.is_empty());
    assert_eq!(
        message,
        Message::Unrecognized(CommonHeader {
            version: Version::One,
            flags: 0,
            message_type: MessageType::PCRpt,
            message_length: 4,
        })
    );
}

#[test]
fn message_errors_come_from_header_and_body() {
    assert_eq!(parse_message(&[0x20, 0x01]), Err(DecodeError::Incomplete));
    assert_eq!(parse_message(&[0x60, 0x01, 0x00, 0x04]), Err(DecodeError::Malformed));
    // An Open message whose object is cut short.
    assert_eq!(
        parse_message(&[0x20, 0x01, 0x00, 0x0c, 0x01, 0x10, 0x00, 0x08, 0x20, 0x1e]),
        Err(DecodeError::Incomplete)
    );
    // An Open message that holds an SRP object.
    assert_eq!(
        parse_message(&[
            0x20, 0x01, 0x00, 0x10, 0x21, 0x10, 0x00, 0x0c, 0x00, 0x00, 0x00, 0x00, 0x00, 0x00,
            0x00, 0x01,
        ]),
        Err(DecodeError::Malformed)
    );
}

#[test]
fn common_object_needs_four_bytes_and_accepts_any_class() {
    let full: [u8; 4] = [0xc8, 0xf3, 0x01, 0x02];
    let mut len: usize = 0;
    while len < 4 {
        assert_eq!(
            CommonObject::parse_common_object(&full[..len]),
            Err(DecodeError::Incomplete)
        );
        len += 1;
    }
    let (rest, header) = CommonObject::parse_common_object(&full).expect("any class");
    assert!(rest.is_empty());
    assert_eq!(
        header,
        CommonObject {
            object_class_type: pcep::objects::classes::ObjectClassType::Unknown((0xc8, 0x0f)),
            reserved: 0,
            flag_process: true,
            flag_ignore: true,
            object_length: 0x0102,
        }
    );
}

#[test]
fn every_object_decoder_rejects_another_class() {
    let srp: [u8; 12] = [0x21, 0x10, 0x00, 0x0c, 0, 0, 0, 0, 0, 0, 0, 1];
    let lsp: [u8; 8] = [0x20, 0x10, 0x00, 0x08, 0x00, 0x0e, 0xb0, 0x09];
    assert_eq!(OpenObject::parse_open_object(&srp), Err(DecodeError::Malformed));
    assert_eq!(LspObject::parse_lsp_object(&srp), Err(DecodeError::Malformed));
    assert_eq!(LspaObject::parse_lspa_object(&srp), Err(DecodeError::Malformed));
    assert_eq!(BandwidthObject::parse_bandwidth_object(&srp), Err(DecodeError::Malformed));
    assert_eq!(MetricObject::parse_metric_object(&srp), Err(DecodeError::Malformed));
    assert_eq!(EndPointsObject::parse_endpoints_object(&srp), Err(DecodeError::Malformed));
    assert_eq!(EroObject::parse_ero_object(&srp), Err(DecodeError::Malformed));
    assert_eq!(SrpObject::parse_srp_object(&lsp), Err(DecodeError::Malformed));
}

#[test]
fn every_object_decoder_rejects_another_type_of_its_class() {
    assert_eq!(
        OpenObject::parse_open_object(&[0x01, 0x20, 0x00, 0x08, 0x20, 0x1e, 0x78, 0x01]),
        Err(DecodeError::Malformed)
    );
    assert_eq!(
        LspObject::parse_lsp_object(&[0x20, 0x00, 0x00, 0x08, 0x00, 0x0e, 0xb0, 0x09]),
        Err(DecodeError::Malformed)
    );
    assert_eq!(
        SrpObject::parse_srp_object(&[0x21, 0x20, 0x00, 0x0c, 0, 0, 0, 0, 0, 0, 0, 1]),
        Err(DecodeError::Malformed)
    );
    assert_eq!(
        EroObject::parse_ero_object(&[0x07, 0x20, 0x00, 0x04]),
        Err(DecodeError::Malformed)
    );
    assert_eq!(
        MetricObject::parse_metric_object(&[
            0x06, 0x00, 0x00, 0x0c, 0x00, 0x00, 0x01, 0x0b, 0x41, 0x20, 0x00, 0x00,
        ]),
        Err(DecodeError::Malformed)
    );
    assert_eq!(
        LspaObject::parse_lspa_object(&[
            0x09, 0x30, 0x00, 0x14, 0, 0, 0, 0, 0, 0, 0, 0, 0, 0, 0, 0, 7, 7, 1, 0,
        ]),
        Err(DecodeError::Malformed)
    );
}

#[test]
fn bandwidth_types_without_decoder_are_malformed() {
    let types: [u8; 5] = [0, 3, 4, 5, 15];
    for object_type in types {
        let input: [u8; 8] = [0x05, object_type << 4, 0x00, 0x08, 0x00, 0x00, 0x00, 0x00];
        assert_eq!(BandwidthObject::parse_bandwidth_object(&input), Err(DecodeError::Malformed));
    }
    let requested_opt: [u8; 8] = [0x05, 0x20, 0x00, 0x08, 0x3f, 0x80, 0x00, 0x00];
    let (_, object) = BandwidthObject::parse_bandwidth_object(&requested_opt).expect("type 2");
    assert_eq!(f32::from_bits(object.bandwidth.bits), 1.0);
}

#[test]
fn endpoints_types_without_decoder_are_malformed() {
    let types: [u8; 5] = [0, 2, 3, 5, 9];
    for object_type in types {
        let input: [u8; 12] =
            [0x04, object_type << 4, 0x00, 0x0c, 10, 100, 0, 105, 10, 100, 0, 104];
        assert_eq!(EndPointsObject::parse_endpoints_object(&input), Err(DecodeError::Malformed));
    }
}

#[test]
fn declared_object_length_under_four_is_malformed() {
    let mut declared: u8 = 0;
    while declared < 4 {
        let srp: [u8; 12] = [0x21, 0x10, 0x00, declared, 0, 0, 0, 0, 0, 0, 0, 1];
        assert_eq!(SrpObject::parse_srp_object(&srp), Err(DecodeError::Malformed));
        let ero: [u8; 4] = [0x07, 0x10, 0x00, declared];
        assert_eq!(EroObject::parse_ero_object(&ero), Err(DecodeError::Malformed));
        let metric: [u8; 12] = [0x06, 0x10, 0x00, declared, 0, 0, 1, 11, 0x41, 0x20, 0, 0];
        assert_eq!(MetricObject::parse_metric_object(&metric), Err(DecodeError::Malformed));
        declared += 1;
    }
}

#[test]
fn object_body_that_the_input_does_not_hold_is_incomplete() {
    let srp: [u8; 12] = [0x21, 0x10, 0x00, 0x0c, 0, 0, 0, 0, 0, 0, 0, 1];
    let mut len: usize = 0;
    while len < 12 {
        assert_eq!(SrpObject::parse_srp_object(&srp[..len]), Err(DecodeError::Incomplete));
        len += 1;
    }
    assert!(SrpObject::parse_srp_object(&srp).is_ok());
}

#[test]
fn object_body_shorter_than_the_fixed_fields_is_incomplete() {
    // The bodies are held in full, but the declared lengths leave no room for the fields.
    assert_eq!(
        SrpObject::parse_srp_object(&[0x21, 0x10, 0x00, 0x08, 0, 0, 0, 0, 0, 0, 0, 1]),
        Err(DecodeError::Incomplete)
    );
    assert_eq!(
        OpenObject::parse_open_object(&[0x01, 0x10, 0x00, 0x06, 0x20, 0x1e, 0x78, 0x01]),
        Err(DecodeError::Incomplete)
    );
    assert_eq!(
        LspObject::parse_lsp_object(&[0x20, 0x10, 0x00, 0x07, 0x00, 0x0e, 0xb0, 0x09]),
        Err(DecodeError::Incomplete)
    );
    assert_eq!(
        BandwidthObject::parse_bandwidth_object(&[0x05, 0x10, 0x00, 0x04, 0, 0, 0, 0]),
        Err(DecodeError::Incomplete)
    );
    assert_eq!(
        MetricObject::parse_metric_object(&[0x06, 0x10, 0x00, 0x08, 0, 0, 1, 11, 0x41, 0x20, 0, 0]),
        Err(DecodeError::Incomplete)
    );
    assert_eq!(
        EndPointsObject::parse_endpoints_object(&[0x04, 0x10, 0x00, 0x08, 10, 100, 0, 105, 10]),
        Err(DecodeError::Incomplete)
    );
    assert_eq!(
        LspaObject::parse_lspa_object(&[
            0x09, 0x10, 0x00, 0x13, 0, 0, 0, 0, 0, 0, 0, 0, 0, 0, 0, 0, 7, 7, 1, 0,
        ]),
        Err(DecodeError::Incomplete)
    );
}

#[test]
fn open_object_rejects_every_version_but_one() {
    let mut version: u8 = 0;
    while version < 8 {
        let input: [u8; 8] = [0x01, 0x10, 0x00, 0x08, version << 5 | 0x11, 0x1e, 0x78, 0x01];
        let decoded = OpenObject::parse_open_object(&input);
        if version == 1 {
            let (_, object) = decoded.expect("version 1");
            assert_eq!(object.flags, 0x11);
            assert_eq!(object.tlvs, None);
        } else {
            assert_eq!(decoded, Err(DecodeError::Malformed));
        }
        version += 1;
    }
}

#[test]
fn malformed_tlv_makes_the_object_malformed() {
    // An LSP object whose symbolic path name is not UTF-8.
    let input: [u8; 16] = [
        0x20, 0x10, 0x00, 0x10, 0x00, 0x0e, 0xb0, 0x09, 0x00, 0x11, 0x00, 0x02, 0xc3, 0x28, 0x00,
        0x00,
    ];
    assert_eq!(LspObject::parse_lsp_object(&input), Err(DecodeError::Malformed));
}

#[test]
fn fixed_tlvs_need_their_fields() {
    let stateful: [u8; 6] = [0x00, 0x04, 0x00, 0x00, 0x00, 0x05];
    let sr: [u8; 6] = [0x00, 0x04, 0x00, 0x00, 0x01, 0x0a];
    let identifiers: [u8; 18] = [0, 16, 10, 100, 0, 105, 0, 0, 0, 174, 10, 100, 0, 105, 10, 104, 105, 1];
    let mut len: usize = 0;
    while len < 18 {
        if len < 6 {
            assert_eq!(
                StatefulPCECapabilityTLV::parse_tlv(&stateful[..len]),
                Err(DecodeError::Incomplete)
            );
            assert_eq!(SrPCECapabilityTLV::parse_tlv(&sr[..len]), Err(DecodeError::Incomplete));
        }
        assert_eq!(
            Ipv4LSPIndetifiersTLV::parse_tlv(&identifiers[..len]),
            Err(DecodeError::Incomplete)
        );
        len += 1;
    }
    assert!(StatefulPCECapabilityTLV::parse_tlv(&stateful).is_ok());
    assert!(SrPCECapabilityTLV::parse_tlv(&sr).is_ok());
    assert!(Ipv4LSPIndetifiersTLV::parse_tlv(&identifiers).is_ok());
}

#[test]
fn value_tlvs_need_their_declared_length() {
    let input: [u8; 6] = [0x00, 0x05, b'a', b'b', b'c', b'd'];
    assert_eq!(UnknownTLV::parse_tlv(&input), Err(DecodeError::Incomplete));
    assert_eq!(SymbolicPathNameTLV::parse_tlv(&input), Err(DecodeError::Incomplete));
    assert_eq!(UnknownTLV::parse_tlv(&input[..1]), Err(DecodeError::Incomplete));
    assert_eq!(SymbolicPathNameTLV::parse_tlv(&[]), Err(DecodeError::Incomplete));
}

#[test]
fn symbolic_path_name_must_be_utf8() {
    let lone_continuation: [u8; 3] = [0x00, 0x01, 0x80];
    assert_eq!(SymbolicPathNameTLV::parse_tlv(&lone_continuation), Err(DecodeError::Malformed));
    let overlong: [u8; 4] = [0x00, 0x02, 0xc0, 0xaf];
    assert_eq!(SymbolicPathNameTLV::parse_tlv(&overlong), Err(DecodeError::Malformed));
    let surrogate: [u8; 5] = [0x00, 0x03, 0xed, 0xa0, 0x80];
    assert_eq!(SymbolicPathNameTLV::parse_tlv(&surrogate), Err(DecodeError::Malformed));
    let cut: [u8; 4] = [0x00, 0x02, 0xe2, 0x82];
    assert_eq!(SymbolicPathNameTLV::parse_tlv(&cut), Err(DecodeError::Malformed));
    // The same bytes are kept as they are by the fallback.
    let (_, unknown) = UnknownTLV::parse_tlv(&overlong).expect("raw bytes");
    assert_eq!(unknown.tlv_data, vec![0xc0, 0xaf]);
}

#[test]
fn tlv_list_stops_at_incomplete_and_fails_at_malformed() {
    let good: [u8; 8] = [0x00, 0x1c, 0x00, 0x04, 0x00, 0x00, 0x00, 0x01];
    let mut truncated: Vec<u8> = good.to_vec();
    truncated.extend_from_slice(&[0x00, 0x11, 0x00, 0x08, b'a', b'b']);
    let (rest, tlvs) = TlvParser::parse_tlvs(&truncated).expect("truncation is no error");
    assert!(rest.is_empty());
    assert_eq!(tlvs.len(), 1);

    let mut malformed: Vec<u8> = good.to_vec();
    malformed.extend_from_slice(&[0x00, 0x11, 0x00, 0x01, 0xff, 0x00, 0x00, 0x00]);
    assert_eq!(TlvParser::parse_tlvs(&malformed), Err(DecodeError::Malformed));
    assert_eq!(TlvParser::parse_tlv(&malformed[8..]), Err(DecodeError::Malformed));
    assert_eq!(TlvParser::parse_tlv(&truncated[8..]), Err(DecodeError::Incomplete));
    assert_eq!(TlvParser::parse_tlv(&[0x00]), Err(DecodeError::Incomplete));
}

#[test]
fn empty_window_gives_the_empty_tlv_list() {
    let (rest, tlvs) = TlvParser::parse_tlvs(&[]).expect("empty");
    assert!(rest.is_empty());
    assert!(tlvs.is_empty());
    assert_eq!(TlvParser::parse_optional_tlvs(&[]), Ok(None));
    assert_eq!(TlvParser::parse_optional_tlvs(&[0x00]), Ok(Some(vec![])));
}

#[test]
fn subobject_header_needs_two_bytes() {
    assert_eq!(SubObject::parse_common_subobject(&[]), Err(DecodeError::Incomplete));
    assert_eq!(SubObject::parse_common_subobject(&[0x81]), Err(DecodeError::Incomplete));
    assert_eq!(SubObjectParser::parse_subobject(&[0x81]), Err(DecodeError::Incomplete));
}

#[test]
fn subobject_length_under_two_is_malformed() {
    assert_eq!(
        SubObjectParser::parse_subobject(&[0x01, 0x00, 0xc0, 0xa8, 0x96, 0x2d, 0x20, 0x00]),
        Err(DecodeError::Malformed)
    );
    assert_eq!(
        SubObjectParser::parse_subobject(&[0x24, 0x01, 0x00, 0x01, 0, 0, 0, 1]),
        Err(DecodeError::Malformed)
    );
    assert_eq!(
        SubObjectParser::parse_subobjects(&[0x01, 0x01, 0xc0, 0xa8, 0x96, 0x2d, 0x20, 0x00]),
        Err(DecodeError::Malformed)
    );
}

#[test]
fn subobject_window_that_the_input_does_not_hold_is_incomplete() {
    let prefix: [u8; 8] = [0x01, 0x08, 0xc0, 0xa8, 0x96, 0x2d, 0x20, 0x00];
    let mut len: usize = 2;
    while len < 8 {
        assert_eq!(SubObjectParser::parse_subobject(&prefix[..len]), Err(DecodeError::Incomplete));
        len += 1;
    }
    assert!(SubObjectParser::parse_subobject(&prefix).is_ok());
}

#[test]
fn subobject_value_must_fill_its_window() {
    // An IPv4 prefix in a window of five bytes, then of seven.
    assert_eq!(
        SubObjectParser::parse_subobject(&[0x01, 0x07, 0xc0, 0xa8, 0x96, 0x2d, 0x20]),
        Err(DecodeError::Malformed)
    );
    assert_eq!(
        SubObjectParser::parse_subobject(&[0x01, 0x09, 0xc0, 0xa8, 0x96, 0x2d, 0x20, 0x00, 0x00]),
        Err(DecodeError::Malformed)
    );
    // A segment without identifier in a window of seven bytes, then of five.
    assert_eq!(
        SubObjectParser::parse_subobject(&[0x24, 0x09, 0x00, 0x01, 0, 0, 0, 1, 0xff]),
        Err(DecodeError::Malformed)
    );
    assert_eq!(
        SubObjectParser::parse_subobject(&[0x24, 0x07, 0x00, 0x01, 0, 0, 0]),
        Err(DecodeError::Malformed)
    );
    // An IPv4 adjacency in a window that ends inside the second address.
    assert_eq!(
        SubObjectParser::parse_subobject(&[
            0x24, 0x0f, 0x30, 0x01, 0x05, 0xdc, 0x30, 0x00, 0x0a, 0x68, 0x69, 0x02, 0x0a, 0x68, 0x69,
        ]),
        Err(DecodeError::Malformed)
    );
    // An empty window.
    assert_eq!(SubObjectParser::parse_subobject(&[0x24, 0x02]), Err(DecodeError::Malformed));
}

#[test]
fn subobject_kinds_without_decoder_are_malformed() {
    let kinds: [u8; 6] = [0, 2, 3, 32, 37, 127];
    for kind in kinds {
        let input: [u8; 4] = [kind, 0x04, 0x00, 0x00];
        assert_eq!(SubObjectParser::parse_subobject(&input), Err(DecodeError::Malformed));
        // Cut short, the same sub-object is incomplete: the window comes first.
        assert_eq!(SubObjectParser::parse_subobject(&input[..3]), Err(DecodeError::Incomplete));
    }
}

#[test]
fn unknown_identifier_type_is_malformed() {
    let types: [u8; 6] = [1, 2, 4, 5, 6, 15];
    for nai_type in types {
        let body: [u8; 6] = [nai_type << 4, 0x01, 0x05, 0xdc, 0x30, 0x00];
        assert_eq!(SrSubobject::parse_sr_subobject(&body), Err(DecodeError::Malformed));
        assert_eq!(NaiType::try_from(nai_type), Err(DecodeError::Malformed));
        let subobject: [u8; 8] = [0x24, 0x08, nai_type << 4, 0x01, 0x05, 0xdc, 0x30, 0x00];
        assert_eq!(SubObjectParser::parse_subobject(&subobject), Err(DecodeError::Malformed));
        assert_eq!(SubObjectParser::parse_subobjects(&subobject), Err(DecodeError::Malformed));
        // With fewer than six bytes the type is not looked at yet.
        assert_eq!(SrSubobject::parse_sr_subobject(&body[..5]), Err(DecodeError::Incomplete));
    }
    assert_eq!(NaiType::try_from(0), Ok(NaiType::Absent));
    assert_eq!(NaiType::try_from(3), Ok(NaiType::Ipv4Adj(Ipv4AdjNAI::default())));
}

#[test]
fn segment_value_decoders_report_missing_bytes_as_incomplete() {
    assert_eq!(SrSubobject::parse_nt_res_flags(&[0x30]), Err(DecodeError::Incomplete));
    assert_eq!(SrSubobject::parse_sr_subobject(&[0x00, 0x01, 0, 0]), Err(DecodeError::Incomplete));
    assert_eq!(
        SrSubobject::parse_sr_subobject(&[0x30, 0x01, 0, 0, 0, 1, 10, 0, 0, 1, 10, 0, 0]),
        Err(DecodeError::Incomplete)
    );
    assert_eq!(Ipv4AdjNAI::parse_ipv4_adj_nai(&[10, 0, 0, 1, 10, 0, 0]), Err(DecodeError::Incomplete));
    assert_eq!(
        Ipv4PrefixSubobject::parse_ipv4_pref_subobject(&[192, 168, 0, 1, 24]),
        Err(DecodeError::Incomplete)
    );
    assert_eq!(
        Ipv4AddressesEndPoint::parse_ipv4_addresses_endpoint(&[10, 0, 0, 1, 10, 0, 0]),
        Err(DecodeError::Incomplete)
    );
}

#[test]
fn ero_with_malformed_subobject_is_malformed() {
    let input: [u8; 12] = [0x07, 0x10, 0x00, 0x0c, 0x02, 0x08, 0, 0, 0, 0, 0, 0];
    assert_eq!(EroObject::parse_ero_object(&input), Err(DecodeError::Malformed));
}
