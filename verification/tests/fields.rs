use pcep::common::Float32;
use pcep::common::Ipv4Addr;
use pcep::common::OperationalStatus;
use pcep::common::Version;
use pcep::error::DecodeError;
use pcep::messages::header::CommonHeader;
use pcep::messages::types::MessageType;
use pcep::objects::header::CommonObject;
use pcep::objects::lsp::LspObject;
use pcep::objects::lspa::LspaObject;
use pcep::objects::metric::MetricObject;
use pcep::objects::metric::MetricType;
use pcep::objects::open::OpenObject;
use pcep::objects::srp::SrpObject;
use pcep::objects::types::BandwidthObjectType;
use pcep::objects::types::EndpointsObjectType;
use pcep::objects::types::EroObjectType;
use pcep::objects::types::LspObjectType;
use pcep::objects::types::LspaObjectType;
use pcep::objects::types::MetricObjectType;
use pcep::objects::types::OpenObjectType;
use pcep::objects::types::SrpObjectType;
use pcep::subobjects::header::SubObject;
use pcep::subobjects::prefix::Ipv4PrefixSubobject;
use pcep::subobjects::sr::Ipv4AdjNAI;
use pcep::subobjects::sr::NaiType;
use pcep::subobjects::sr::SrSubobject;
use pcep::subobjects::types::SubObjectTypes;
use pcep::tlvs::tlv_set::Ipv4LSPIndetifiersTLV;
use pcep::tlvs::tlv_set::SrPCECapabilityTLV;
use pcep::tlvs::tlv_set::StatefulPCECapabilityTLV;
use pcep::tlvs::tlv_set::SymbolicPathNameTLV;
use pcep::tlvs::tlv_set::UnknownTLV;
use pcep::tlvs::types::Tlv;

const TAIL: [u8; 2] = [0xa5, 0x5a];

#[test]
fn version_and_flags_split_every_byte() {
    let mut byte: u16 = 0;
    while byte <= 255 {
        let input: [u8; 3] = [byte as u8, TAIL[0], TAIL[1]];
        let (rest, fields) = CommonHeader::parse_version_flags(&input).expect("one byte");
        assert_eq!(fields, ((byte / 32) as u8, (byte % 32) as u8));
        assert_eq!(rest, &TAIL[..]);
        let (rest, fields) = OpenObject::parse_ver_flags(&input).expect("one byte");
        assert_eq!(fields, ((byte / 32) as u8, (byte % 32) as u8));
        assert_eq!(rest, &TAIL[..]);
        byte += 1;
    }
    assert_eq!(CommonHeader::parse_version_flags(&[]), Err(DecodeError::Incomplete));
    assert_eq!(OpenObject::parse_ver_flags(&[]), Err(DecodeError::Incomplete));
}

#[test]
fn object_type_byte_splits_every_byte() {
    let mut byte: u16 = 0;
    while byte <= 255 {
        let input: [u8; 3] = [byte as u8, TAIL[0], TAIL[1]];
        let (rest, fields) = CommonObject::parse_typ_res_p_i(&input).expect("one byte");
        assert_eq!(
            fields,
            ((byte / 16) as u8, ((byte / 4) % 4) as u8, ((byte / 2) % 2) as u8, (byte % 2) as u8)
        );
        assert_eq!(rest, &TAIL[..]);
        byte += 1;
    }
    assert_eq!(CommonObject::parse_typ_res_p_i(&[]), Err(DecodeError::Incomplete));
}

#[test]
fn one_byte_groups_split_every_byte() {
    let mut byte: u16 = 0;
    while byte <= 255 {
        let input: [u8; 3] = [byte as u8, TAIL[0], TAIL[1]];
        let (rest, fields) = LspaObject::parse_res_flag_l(&input).expect("one byte");
        assert_eq!(fields, ((byte / 2) as u8, (byte % 2) as u8));
        assert_eq!(rest, &TAIL[..]);
        let (rest, fields) = MetricObject::parse_res_flag_c_b(&input).expect("one byte");
        assert_eq!(fields, ((byte / 4) as u8, ((byte / 2) % 2) as u8, (byte % 2) as u8));
        assert_eq!(rest, &TAIL[..]);
        let (rest, fields) = SubObject::parse_l_subobj(&input).expect("one byte");
        assert_eq!(fields, ((byte / 128) as u8, (byte % 128) as u8));
        assert_eq!(rest, &TAIL[..]);
        byte += 1;
    }
    assert_eq!(LspaObject::parse_res_flag_l(&[]), Err(DecodeError::Incomplete));
    assert_eq!(MetricObject::parse_res_flag_c_b(&[]), Err(DecodeError::Incomplete));
    assert_eq!(SubObject::parse_l_subobj(&[]), Err(DecodeError::Incomplete));
}

#[test]
fn segment_fields_split_every_pair_of_bytes() {
    let mut word: u32 = 0;
    while word <= 0xffff {
        let input: [u8; 4] = [(word >> 8) as u8, (word & 0xff) as u8, TAIL[0], TAIL[1]];
        let (rest, fields) = SrSubobject::parse_nt_res_flags(&input).expect("two bytes");
        assert_eq!(
            fields,
            ((word >> 12) as u8, ((word >> 4) & 0xff) as u8, (word & 0xf) as u8)
        );
        assert_eq!(rest, &TAIL[..]);
        word += 1;
    }
}

#[test]
fn lsp_word_splits_into_its_seven_fields() {
    let words: [u32; 9] = [
        0x0000_0000,
        0xffff_ffff,
        0x000e_b009,
        0x1234_5678,
        0xffff_f000,
        0x0000_0f80,
        0x0000_0070,
        0x8000_0001,
        0x0000_100a,
    ];
    for word in words {
        let bytes: [u8; 4] = word.to_be_bytes();
        let input: [u8; 6] = [bytes[0], bytes[1], bytes[2], bytes[3], TAIL[0], TAIL[1]];
        let (rest, fields) =
            LspObject::parse_plsp_id_res_oper_flag_a_r_s_d(&input).expect("four bytes");
        assert_eq!(
            fields,
            (
                word >> 12,
                ((word >> 7) & 0x1f) as u8,
                ((word >> 4) & 0x7) as u8,
                ((word >> 3) & 1) as u8,
                ((word >> 2) & 1) as u8,
                ((word >> 1) & 1) as u8,
                (word & 1) as u8
            )
        );
        assert_eq!(rest, &TAIL[..]);
    }
    let mut len: usize = 0;
    while len < 4 {
        assert_eq!(
            LspObject::parse_plsp_id_res_oper_flag_a_r_s_d(&[0xff, 0xff, 0xff][..len]),
            Err(DecodeError::Incomplete)
        );
        len += 1;
    }
}

#[test]
fn lsp_object_reads_status_and_flags() {
    let expected: [(u8, OperationalStatus); 8] = [
        (0, OperationalStatus::Down),
        (1, OperationalStatus::Up),
        (2, OperationalStatus::Active),
        (3, OperationalStatus::GoingDown),
        (4, OperationalStatus::GoingUp),
        (5, OperationalStatus::Reserved),
        (6, OperationalStatus::Reserved),
        (7, OperationalStatus::Reserved),
    ];
    for (code, status) in expected {
        let mut flags: u8 = 0;
        while flags < 16 {
            let input: [u8; 8] = [0x20, 0x10, 0x00, 0x08, 0xff, 0xff, 0xf0, code << 4 | flags];
            let (rest, object) = LspObject::parse_lsp_object(&input).expect("lsp object");
            assert!(rest.is_empty());
            assert_eq!(object.plsp_id, 0xf_ffff);
            assert_eq!(object.operational_status, status);
            assert_eq!(object.flag_administrative, flags & 8 == 8);
            assert_eq!(object.flag_remove, flags & 4 == 4);
            assert_eq!(object.flag_sync, flags & 2 == 2);
            assert_eq!(object.flag_delegate, flags & 1 == 1);
            assert_eq!(object.tlvs, None);
            assert_eq!(OperationalStatus::from(code), status);
            flags += 1;
        }
    }
    assert_eq!(OperationalStatus::from(200), OperationalStatus::Reserved);
}

#[test]
fn common_header_reads_big_endian_length() {
    let (_, header) = CommonHeader::parse_common_header(&[0x3f, 0x0c, 0x12, 0x34]).expect("header");
    assert_eq!(
        header,
        CommonHeader {
            version: Version::One,
            flags: 0x1f,
            message_type: MessageType::PCInitiate,
            message_length: 0x1234,
        }
    );
}

#[test]
fn declared_message_length_bounds_the_body() {
    let header = CommonHeader {
        version: Version::One,
        flags: 0,
        message_type: MessageType::Open,
        message_length: 36,
    };
    assert!(header.body_fits(0));
    assert!(header.body_fits(32));
    assert!(!header.body_fits(33));
    let short = CommonHeader { message_length: 3, ..header };
    assert!(!short.body_fits(0));
    let bare = CommonHeader { message_length: 4, ..header };
    assert!(bare.body_fits(0));
    assert!(!bare.body_fits(1));
}

#[test]
fn default_header_is_the_unknown_message_of_length_zero() {
    assert_eq!(
        CommonHeader::default(),
        CommonHeader {
            version: Version::One,
            flags: 0,
            message_type: MessageType::UnKnown(0),
            message_length: 0,
        }
    );
    assert_eq!(Version::default(), Version::One);
    assert_eq!(MessageType::default(), MessageType::UnKnown(0));
}

#[test]
fn stateful_capability_reads_each_flag() {
    let mut bit: u32 = 0;
    while bit < 32 {
        let word: u32 = 1 << bit;
        let bytes: [u8; 4] = word.to_be_bytes();
        let input: [u8; 6] = [0x00, 0x04, bytes[0], bytes[1], bytes[2], bytes[3]];
        let (rest, tlv) = StatefulPCECapabilityTLV::parse_tlv(&input).expect("tlv");
        assert!(rest.is_empty());
        assert_eq!(
            tlv,
            StatefulPCECapabilityTLV {
                tlv_type: 16,
                tlv_len: 4,
                flag_lsp_update_capability: bit == 0,
                flag_include_db_version: bit == 1,
                flag_lsp_instantiate_capability: bit == 2,
                flag_triggered_resync: bit == 3,
                flag_delta_lsp_sync_capability: bit == 4,
                flag_triggered_initial_sync: bit == 5,
            }
        );
        bit += 1;
    }
}

#[test]
fn sr_capability_reads_its_fields() {
    let (rest, tlv) =
        SrPCECapabilityTLV::parse_tlv(&[0x00, 0x04, 0xab, 0xcd, 0x03, 0x10, 0x99]).expect("tlv");
    assert_eq!(rest, &[0x99]);
    assert_eq!(
        tlv,
        SrPCECapabilityTLV {
            tlv_type: 26,
            tlv_len: 4,
            reserved: 0xabcd,
            flag_limit: true,
            max_sid_depth: 16,
        }
    );
    let (_, tlv) = SrPCECapabilityTLV::parse_tlv(&[0x00, 0x04, 0, 0, 0xfe, 0x00]).expect("tlv");
    assert!(!tlv.flag_limit);
}

#[test]
fn symbolic_path_name_reads_utf8() {
    let name = "caf\u{e9}-\u{20ac}-\u{1f600}";
    let mut input: Vec<u8> = vec![0x00, name.len() as u8];
    input.extend_from_slice(name.as_bytes());
    input.push(0x77);
    let (rest, tlv) = SymbolicPathNameTLV::parse_tlv(&input).expect("tlv");
    assert_eq!(rest, &[0x77]);
    assert_eq!(
        tlv,
        SymbolicPathNameTLV {
            tlv_type: 17,
            tlv_len: name.len() as u16,
            symbolic_path_name: String::from(name),
        }
    );
    let (_, empty) = SymbolicPathNameTLV::parse_tlv(&[0x00, 0x00]).expect("empty name");
    assert_eq!(empty.symbolic_path_name, "");
}

#[test]
fn unknown_tlv_body_has_type_zero_until_the_caller_sets_it() {
    let (rest, tlv) = UnknownTLV::parse_tlv(&[0x00, 0x02, 0xca, 0xfe, 0x01]).expect("tlv");
    assert_eq!(rest, &[0x01]);
    assert_eq!(tlv, UnknownTLV { tlv_type: 0, tlv_len: 2, tlv_data: vec![0xca, 0xfe] });
}

#[test]
fn tlv_kinds_by_type_code() {
    assert_eq!(Tlv::from(16), Tlv::StatefulPCECapability(StatefulPCECapabilityTLV::default()));
    assert_eq!(Tlv::from(17), Tlv::SymbolicPathName(SymbolicPathNameTLV::default()));
    assert_eq!(Tlv::from(18), Tlv::Ipv4LSPIndetifiers(Ipv4LSPIndetifiersTLV::default()));
    assert_eq!(Tlv::from(26), Tlv::SrPCECapability(SrPCECapabilityTLV::default()));
    assert_eq!(Tlv::from(0), Tlv::Unknown(UnknownTLV::default()));
    assert_eq!(Tlv::from(35), Tlv::Unknown(UnknownTLV::default()));
}

#[test]
fn default_values_of_the_tlvs() {
    assert_eq!(
        StatefulPCECapabilityTLV::default(),
        StatefulPCECapabilityTLV {
            tlv_type: 0,
            tlv_len: 0,
            flag_lsp_update_capability: false,
            flag_include_db_version: false,
            flag_lsp_instantiate_capability: false,
            flag_triggered_resync: false,
            flag_delta_lsp_sync_capability: false,
            flag_triggered_initial_sync: false,
        }
    );
    assert_eq!(
        SrPCECapabilityTLV::default(),
        SrPCECapabilityTLV { tlv_type: 0, tlv_len: 0, reserved: 0, flag_limit: false, max_sid_depth: 0 }
    );
    assert_eq!(UnknownTLV::default(), UnknownTLV { tlv_type: 0, tlv_len: 0, tlv_data: vec![] });
    assert_eq!(
        SymbolicPathNameTLV::default(),
        SymbolicPathNameTLV { tlv_type: 0, tlv_len: 0, symbolic_path_name: String::new() }
    );
    assert_eq!(
        Ipv4LSPIndetifiersTLV::default(),
        Ipv4LSPIndetifiersTLV {
            tlv_type: 18,
            tlv_len: 0,
            tunnel_sender_address: Ipv4Addr::new(127, 0, 0, 1),
            lsp_id: 0,
            tunnel_id: 0,
            extended_tunnel_id: 0,
            tunnel_endpoint_address: Ipv4Addr::new(127, 0, 0, 1),
        }
    );
}

#[test]
fn default_values_of_the_subobjects() {
    assert_eq!(
        Ipv4PrefixSubobject::default(),
        Ipv4PrefixSubobject { ipv4_addr: Ipv4Addr::new(127, 0, 0, 1), pref_len: 32, reserved: 0 }
    );
    assert_eq!(
        Ipv4AdjNAI::default(),
        Ipv4AdjNAI {
            local_ipv4: Ipv4Addr::new(127, 0, 0, 1),
            remote_ipv4: Ipv4Addr::new(127, 0, 0, 1),
        }
    );
    assert_eq!(NaiType::default(), NaiType::Absent);
    assert_eq!(
        SrSubobject::default(),
        SrSubobject {
            nai_type: NaiType::Absent,
            flag_f: false,
            flag_s: false,
            flag_c: false,
            flag_m: false,
            sid: 0,
        }
    );
}

#[test]
fn addresses_are_read_in_wire_order() {
    let (rest, address) = Ipv4Addr::parse(&[192, 168, 150, 45, 7]).expect("address");
    assert_eq!(rest, &[7]);
    assert_eq!(address, Ipv4Addr { a: 192, b: 168, c: 150, d: 45 });
    assert_eq!(Ipv4Addr::localhost(), Ipv4Addr::new(127, 0, 0, 1));
    assert_eq!(Ipv4Addr::parse(&[192, 168, 150]), Err(DecodeError::Incomplete));
}

#[test]
fn subobject_kinds_by_type_code() {
    assert_eq!(SubObjectTypes::from(1), SubObjectTypes::Ipv4Prefix(Ipv4PrefixSubobject::default()));
    assert_eq!(SubObjectTypes::from(2), SubObjectTypes::Ipv6Prefix);
    assert_eq!(SubObjectTypes::from(32), SubObjectTypes::As);
    assert_eq!(SubObjectTypes::from(36), SubObjectTypes::Sr(SrSubobject::default()));
    assert_eq!(SubObjectTypes::from(0), SubObjectTypes::Unknown(0));
    assert_eq!(SubObjectTypes::from(99), SubObjectTypes::Unknown(99));
}

#[test]
fn subobject_header_reads_loose_flag_type_and_length() {
    let (rest, header) = SubObject::parse_common_subobject(&[0x81, 0x08, 0x55]).expect("header");
    assert_eq!(rest, &[0x55]);
    assert_eq!(
        header,
        SubObject {
            flag_l: true,
            subobject_type: SubObjectTypes::Ipv4Prefix(Ipv4PrefixSubobject::default()),
            subobject_len: 8,
        }
    );
    let (_, header) = SubObject::parse_common_subobject(&[0x63, 0xff]).expect("header");
    assert_eq!(
        header,
        SubObject { flag_l: false, subobject_type: SubObjectTypes::Unknown(0x63), subobject_len: 255 }
    );
}

#[test]
fn segment_reads_each_flag_and_the_sid() {
    let mut flags: u8 = 0;
    while flags < 16 {
        let body: [u8; 6] = [0x0a, 0xb0 | flags, 0xde, 0xad, 0xbe, 0xef];
        let (rest, segment) = SrSubobject::parse_sr_subobject(&body).expect("segment");
        assert!(rest.is_empty());
        assert_eq!(
            segment,
            SrSubobject {
                nai_type: NaiType::Absent,
                flag_f: flags & 8 == 8,
                flag_s: flags & 4 == 4,
                flag_c: flags & 2 == 2,
                flag_m: flags & 1 == 1,
                sid: 0xdead_beef,
            }
        );
        flags += 1;
    }
}

#[test]
fn segment_without_identifier_leaves_what_follows() {
    let body: [u8; 8] = [0x00, 0x01, 0x00, 0x00, 0x00, 0x2a, 0x11, 0x22];
    let (rest, segment) = SrSubobject::parse_sr_subobject(&body).expect("segment");
    assert_eq!(rest, &[0x11, 0x22]);
    assert_eq!(segment.nai_type, NaiType::Absent);
    assert_eq!(segment.sid, 42);
}

#[test]
fn object_type_codes() {
    assert_eq!(OpenObjectType::from(0), OpenObjectType::Reserved);
    assert_eq!(OpenObjectType::from(1), OpenObjectType::Open);
    assert_eq!(OpenObjectType::from(2), OpenObjectType::UnAssigned);
    assert_eq!(OpenObjectType::from(15), OpenObjectType::UnAssigned);
    assert_eq!(SrpObjectType::from(0), SrpObjectType::Reserved);
    assert_eq!(SrpObjectType::from(1), SrpObjectType::Srp);
    assert_eq!(SrpObjectType::from(9), SrpObjectType::UnAssigned);
    assert_eq!(LspObjectType::from(0), LspObjectType::Reserved);
    assert_eq!(LspObjectType::from(1), LspObjectType::Lsp);
    assert_eq!(LspObjectType::from(3), LspObjectType::UnAssigned);
    assert_eq!(LspaObjectType::from(0), LspaObjectType::Reserved);
    assert_eq!(LspaObjectType::from(1), LspaObjectType::Lspa);
    assert_eq!(LspaObjectType::from(2), LspaObjectType::Unassigned);
    assert_eq!(MetricObjectType::from(0), MetricObjectType::Reserved);
    assert_eq!(MetricObjectType::from(1), MetricObjectType::Metric);
    assert_eq!(MetricObjectType::from(14), MetricObjectType::Unassigned);
    assert_eq!(EroObjectType::from(0), EroObjectType::Reserved);
    assert_eq!(EroObjectType::from(1), EroObjectType::Ero);
    assert_eq!(EroObjectType::from(2), EroObjectType::Unassigned);
    assert_eq!(BandwidthObjectType::from(0), BandwidthObjectType::Reserved);
    assert_eq!(BandwidthObjectType::from(1), BandwidthObjectType::Requested);
    assert_eq!(BandwidthObjectType::from(2), BandwidthObjectType::RequestedOpt);
    assert_eq!(BandwidthObjectType::from(3), BandwidthObjectType::Genric);
    assert_eq!(BandwidthObjectType::from(4), BandwidthObjectType::GenericOpt);
    assert_eq!(BandwidthObjectType::from(5), BandwidthObjectType::UnAssigned);
    assert_eq!(EndpointsObjectType::from(0), EndpointsObjectType::Reserved);
    assert_eq!(EndpointsObjectType::from(1), EndpointsObjectType::Ipv4Addresses);
    assert_eq!(EndpointsObjectType::from(2), EndpointsObjectType::Ipv6Addresses);
    assert_eq!(EndpointsObjectType::from(3), EndpointsObjectType::Ipv4);
    assert_eq!(EndpointsObjectType::from(4), EndpointsObjectType::Ipv6);
    assert_eq!(EndpointsObjectType::from(5), EndpointsObjectType::Generalized);
    assert_eq!(EndpointsObjectType::from(6), EndpointsObjectType::Unassigned);
}

#[test]
fn metric_type_codes() {
    assert_eq!(MetricType::from(1), MetricType::Igp);
    assert_eq!(MetricType::from(2), MetricType::Te);
    assert_eq!(MetricType::from(3), MetricType::HopCount);
    assert_eq!(MetricType::from(11), MetricType::SidDepth);
    assert_eq!(MetricType::from(12), MetricType::PathDelay);
    assert_eq!(MetricType::from(0), MetricType::Unknown(0));
    assert_eq!(MetricType::from(4), MetricType::Unknown(4));
    assert_eq!(MetricType::from(255), MetricType::Unknown(255));
}

#[test]
fn metric_object_reads_compute_and_bound_flags() {
    let mut flags: u8 = 0;
    while flags < 4 {
        let input: [u8; 12] =
            [0x06, 0x10, 0x00, 0x0c, 0x12, 0x34, 0xfc | flags, 0x02, 0x42, 0x28, 0x00, 0x00];
        let (_, object) = MetricObject::parse_metric_object(&input).expect("metric");
        assert_eq!(object.reserved, 0x1234);
        assert_eq!(object.flag_compute, flags & 2 == 2);
        assert_eq!(object.flag_bound, flags & 1 == 1);
        assert_eq!(object.metric_type, MetricType::Te);
        assert_eq!(object.metric_value, Float32 { bits: 0x4228_0000 });
        assert_eq!(f32::from_bits(object.metric_value.bits), 42.0);
        flags += 1;
    }
}

#[test]
fn lspa_object_reads_its_fields() {
    let input: [u8; 20] = [
        0x09, 0x13, 0x00, 0x14, 0x01, 0x02, 0x03, 0x04, 0x05, 0x06, 0x07, 0x08, 0x09, 0x0a, 0x0b,
        0x0c, 0x03, 0x04, 0xfe, 0x5c,
    ];
    let (_, object) = LspaObject::parse_lspa_object(&input).expect("lspa");
    assert_eq!(object.common_object.flag_process, true);
    assert_eq!(object.common_object.flag_ignore, true);
    assert_eq!(object.exclude_any, 0x0102_0304);
    assert_eq!(object.include_any, 0x0506_0708);
    assert_eq!(object.include_all, 0x090a_0b0c);
    assert_eq!(object.setup_priority, 3);
    assert_eq!(object.holding_priority, 4);
    assert_eq!(object.flag_local_protection, false);
    assert_eq!(object.reserved, 0x5c);
    assert_eq!(object.tlvs, None);
}

#[test]
fn srp_object_reads_its_fields_and_the_remove_flag() {
    let input: [u8; 12] = [0x21, 0x10, 0x00, 0x0c, 0x80, 0x00, 0x00, 0x01, 0x01, 0x02, 0x03, 0x04];
    let (_, object) = SrpObject::parse_srp_object(&input).expect("srp");
    assert_eq!(object.flags, 0x8000_0001);
    assert_eq!(object.srp_id, 0x0102_0304);
    assert!(object.flag_remove());
    let input: [u8; 12] = [0x21, 0x10, 0x00, 0x0c, 0xff, 0xff, 0xff, 0xfe, 0x00, 0x00, 0x00, 0x00];
    let (_, object) = SrpObject::parse_srp_object(&input).expect("srp");
    assert!(!object.flag_remove());
}

#[test]
fn identifiers_tlv_reads_its_fields() {
    let input: [u8; 18] = [0, 16, 10, 100, 0, 105, 0x12, 0x34, 0, 174, 10, 100, 0, 105, 10, 104, 105, 1];
    let (rest, tlv) = Ipv4LSPIndetifiersTLV::parse_tlv(&input).expect("tlv");
    assert!(rest.is_empty());
    assert_eq!(
        tlv,
        Ipv4LSPIndetifiersTLV {
            tlv_type: 18,
            tlv_len: 16,
            tunnel_sender_address: Ipv4Addr::new(10, 100, 0, 105),
            lsp_id: 0x1234,
            tunnel_id: 174,
            extended_tunnel_id: 174325865,
            tunnel_endpoint_address: Ipv4Addr::new(10, 104, 105, 1),
        }
    );
}
