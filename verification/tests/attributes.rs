// Attributes one at a time and in sequences: exact bytes, every error, and
// what is kept of the kinds that the codec does not interpret.

use netlink_packet_netfilter::conntrack::nlas::nla::ConntrackNla;
use netlink_packet_netfilter::conntrack::nlas::IPTuple;
use netlink_packet_netfilter::conntrack::nlas::IpAddress;
use netlink_packet_netfilter::conntrack::nlas::ProtoInfo;
use netlink_packet_netfilter::conntrack::nlas::ProtoInfoTCP;
use netlink_packet_netfilter::conntrack::nlas::ProtoTuple;
use netlink_packet_netfilter::conntrack::nlas::TCPFlags;
use netlink_packet_netfilter::conntrack::nlas::Tuple;
use netlink_packet_netfilter::conntrack::ConntrackMessage;
use netlink_packet_netfilter::error::Attribute;
use netlink_packet_netfilter::error::Cause;
use netlink_packet_netfilter::error::ParseError;
use netlink_packet_netfilter::sequence::buffer_len_all;
use netlink_packet_netfilter::sequence::checked_len_all;
use netlink_packet_netfilter::nla::copy_bytes;
use netlink_packet_netfilter::sequence::emit_all;
use netlink_packet_netfilter::sequence::parse_all;
use netlink_packet_netfilter::nla::Emitable;
use netlink_packet_netfilter::nla::Nla;
use netlink_packet_netfilter::nla::NlaSlice;
use netlink_packet_netfilter::nla::OpaqueNla;
use netlink_packet_netfilter::value::read_u16_be;
use netlink_packet_netfilter::value::read_u8;
use netlink_packet_netfilter::value::write_u16_be;
use netlink_packet_netfilter::value::write_u8;

const NESTED: u16 = 0x8000;
const NET_BYTEORDER: u16 = 0x4000;

// The bytes of one attribute on this host: header, value, zero padding.
fn attr(kind: u16, value: &[u8]) -> Vec<u8> {
    let mut bytes = Vec::new();
    bytes.extend_from_slice(&((value.len() + 4) as u16).to_ne_bytes());
    bytes.extend_from_slice(&kind.to_ne_bytes());
    bytes.extend_from_slice(value);
    while bytes.len() % 4 != 0 {
        bytes.push(0);
    }
    bytes
}

fn concat(parts: &[Vec<u8>]) -> Vec<u8> {
    let mut bytes = Vec::new();
    for part in parts {
        bytes.extend_from_slice(part);
    }
    bytes
}

fn emitted<T: Emitable>(nla: &T) -> Vec<u8> {
    let mut buffer = vec![0xff; nla.buffer_len()];
    nla.emit(&mut buffer);
    buffer
}

fn parsed<T: Nla>(bytes: &[u8]) -> Result<T, ParseError> {
    T::parse(&NlaSlice::new_checked(bytes).unwrap())
}

fn value_length(attribute: Attribute) -> ParseError {
    ParseError { attribute: Some(attribute), cause: Cause::ValueLength }
}

fn framing(attribute: Option<Attribute>) -> ParseError {
    ParseError { attribute, cause: Cause::Framing }
}

#[test]
fn tcp_flags_from_two_bytes() {
    assert_eq!(TCPFlags::parse(&[0x0a, 0x0a]), Ok(TCPFlags { flags: 10, mask: 10 }));
    assert_eq!(TCPFlags::parse(&[0x12, 0x34]), Ok(TCPFlags { flags: 0x12, mask: 0x34 }));
}

#[test]
fn tcp_flags_refuse_other_lengths() {
    let refused = Err(ParseError { attribute: None, cause: Cause::ValueLength });
    assert_eq!(TCPFlags::parse(&[]), refused);
    assert_eq!(TCPFlags::parse(&[0x0a]), refused);
    assert_eq!(TCPFlags::parse(&[0x0a, 0x0a, 0x0a]), refused);
}

#[test]
fn tcp_flags_emit_flags_then_mask() {
    let flags = TCPFlags { flags: 0x02, mask: 0x1f };
    assert_eq!(flags.buffer_len(), 2);
    assert_eq!(emitted(&flags), vec![0x02, 0x1f]);
    let mut longer = vec![0xee; 4];
    flags.emit(&mut longer);
    assert_eq!(longer, vec![0x02, 0x1f, 0xee, 0xee]);
}

#[test]
fn context_names_the_attribute() {
    let bare = ParseError { attribute: None, cause: Cause::ValueLength };
    assert_eq!(
        bare.context(Attribute::CtaProtoNum),
        ParseError { attribute: Some(Attribute::CtaProtoNum), cause: Cause::ValueLength }
    );
}

#[test]
fn fixed_width_values() {
    assert_eq!(read_u8(&[7], Attribute::CtaProtoNum), Ok(7));
    assert_eq!(read_u8(&[], Attribute::CtaProtoNum), Err(value_length(Attribute::CtaProtoNum)));
    assert_eq!(read_u8(&[7, 8], Attribute::CtaProtoNum), Err(value_length(Attribute::CtaProtoNum)));
    assert_eq!(read_u16_be(&[0x9a, 0xb0], Attribute::CtaProtoSrcPort), Ok(39600));
    assert_eq!(read_u16_be(&[0x01, 0xbb], Attribute::CtaProtoDstPort), Ok(443));
    assert_eq!(
        read_u16_be(&[0x01], Attribute::CtaProtoDstPort),
        Err(value_length(Attribute::CtaProtoDstPort))
    );
    assert_eq!(
        read_u16_be(&[1, 2, 3], Attribute::CtaProtoDstPort),
        Err(value_length(Attribute::CtaProtoDstPort))
    );
    let mut one = [0u8; 1];
    write_u8(&mut one, 0xab);
    assert_eq!(one, [0xab]);
    let mut two = [0u8; 2];
    write_u16_be(&mut two, 39600);
    assert_eq!(two, [0x9a, 0xb0]);
}

#[test]
fn copy_bytes_copies() {
    let mut dst = [0u8; 3];
    copy_bytes(&[1, 2, 3], &mut dst);
    assert_eq!(dst, [1, 2, 3]);
}

#[test]
fn slice_checks_the_header() {
    assert!(NlaSlice::new_checked(&attr(1, &[6])).is_ok());
    assert_eq!(NlaSlice::new_checked(&[]).err(), Some(framing(None)));
    assert_eq!(NlaSlice::new_checked(&[4, 0, 0]).err(), Some(framing(None)));
    // declares more than there is
    let mut long = attr(1, &[6]);
    long[0..2].copy_from_slice(&9u16.to_ne_bytes());
    assert_eq!(NlaSlice::new_checked(&long).err(), Some(framing(None)));
    // declares less than its own header
    let mut short = attr(1, &[6]);
    short[0..2].copy_from_slice(&3u16.to_ne_bytes());
    assert_eq!(NlaSlice::new_checked(&short).err(), Some(framing(None)));
}

#[test]
fn slice_reads_kind_and_value() {
    let bytes = attr(0x8000 | 0x4000 | 0x1234, &[1, 2, 3, 4, 5]);
    let slice = NlaSlice::new_checked(&bytes).unwrap();
    assert_eq!(slice.kind(), 0x1234);
    assert_eq!(slice.value(), &[1, 2, 3, 4, 5]);
    assert_eq!(slice.bytes(), &bytes[..]);
}

#[test]
fn protocol_group_exact_bytes() {
    assert_eq!(
        emitted(&ProtoTuple::Protocol(6)),
        vec![0x05, 0x00, 0x01, 0x00, 0x06, 0x00, 0x00, 0x00]
    );
    assert_eq!(
        emitted(&ProtoTuple::SourcePort(39600)),
        vec![0x06, 0x00, 0x02, 0x00, 0x9a, 0xb0, 0x00, 0x00]
    );
    assert_eq!(
        emitted(&ProtoTuple::DestinationPort(443)),
        vec![0x06, 0x00, 0x03, 0x00, 0x01, 0xbb, 0x00, 0x00]
    );
}

#[test]
fn protocol_group_members() {
    let protocol = ProtoTuple::Protocol(17);
    assert_eq!(protocol.kind(), 1);
    assert_eq!(protocol.value_len(), 1);
    assert!(!protocol.is_nested());
    assert!(protocol.encodable());
    assert_eq!(protocol.buffer_len(), 8);
    let port = ProtoTuple::SourcePort(53);
    assert_eq!(port.kind(), 2);
    assert_eq!(port.value_len(), 2);
    assert_eq!(ProtoTuple::DestinationPort(53).kind(), 3);
    assert_eq!(parsed::<ProtoTuple>(&attr(1, &[17])), Ok(ProtoTuple::Protocol(17)));
    assert_eq!(parsed::<ProtoTuple>(&attr(2, &[0, 53])), Ok(ProtoTuple::SourcePort(53)));
    assert_eq!(
        parsed::<ProtoTuple>(&attr(3, &[0x1f, 0x90])),
        Ok(ProtoTuple::DestinationPort(8080))
    );
}

#[test]
fn protocol_group_wrong_lengths() {
    assert_eq!(parsed::<ProtoTuple>(&attr(1, &[])), Err(value_length(Attribute::CtaProtoNum)));
    assert_eq!(parsed::<ProtoTuple>(&attr(1, &[0, 6])), Err(value_length(Attribute::CtaProtoNum)));
    assert_eq!(
        parsed::<ProtoTuple>(&attr(2, &[53])),
        Err(value_length(Attribute::CtaProtoSrcPort))
    );
    assert_eq!(
        parsed::<ProtoTuple>(&attr(3, &[0, 0, 53])),
        Err(value_length(Attribute::CtaProtoDstPort))
    );
}

#[test]
fn address_family_follows_the_length() {
    let v4 = [10, 57, 97, 124];
    let v6 = [0x20, 0x01, 0x0d, 0xb8, 0, 0, 0, 0, 0, 0, 0, 0, 0, 0, 0, 1];
    // IPv4 kinds
    assert_eq!(parsed::<IPTuple>(&attr(1, &v4)), Ok(IPTuple::SourceAddress(IpAddress::V4(v4))));
    assert_eq!(
        parsed::<IPTuple>(&attr(2, &v4)),
        Ok(IPTuple::DestinationAddress(IpAddress::V4(v4)))
    );
    // IPv6 kinds
    assert_eq!(parsed::<IPTuple>(&attr(3, &v6)), Ok(IPTuple::SourceAddress(IpAddress::V6(v6))));
    assert_eq!(
        parsed::<IPTuple>(&attr(4, &v6)),
        Ok(IPTuple::DestinationAddress(IpAddress::V6(v6)))
    );
    // the kind does not decide the family
    assert_eq!(parsed::<IPTuple>(&attr(1, &v6)), Ok(IPTuple::SourceAddress(IpAddress::V6(v6))));
    assert_eq!(
        parsed::<IPTuple>(&attr(4, &v4)),
        Ok(IPTuple::DestinationAddress(IpAddress::V4(v4)))
    );
}

#[test]
fn address_of_other_length_is_refused() {
    assert_eq!(parsed::<IPTuple>(&attr(1, &[])), Err(value_length(Attribute::CtaIpSrc)));
    assert_eq!(parsed::<IPTuple>(&attr(1, &[10, 0, 0])), Err(value_length(Attribute::CtaIpSrc)));
    assert_eq!(parsed::<IPTuple>(&attr(3, &[0; 5])), Err(value_length(Attribute::CtaIpSrc)));
    assert_eq!(parsed::<IPTuple>(&attr(2, &[0; 15])), Err(value_length(Attribute::CtaIpDst)));
    assert_eq!(parsed::<IPTuple>(&attr(4, &[0; 17])), Err(value_length(Attribute::CtaIpDst)));
}

#[test]
fn address_group_exact_bytes() {
    assert_eq!(
        emitted(&IPTuple::SourceAddress(IpAddress::V4([10, 57, 97, 124]))),
        vec![0x08, 0x00, 0x01, 0x00, 0x0a, 0x39, 0x61, 0x7c]
    );
    assert_eq!(
        emitted(&IPTuple::DestinationAddress(IpAddress::V4([148, 113, 20, 105]))),
        vec![0x08, 0x00, 0x02, 0x00, 0x94, 0x71, 0x14, 0x69]
    );
    let v6 = [0xfe, 0x80, 0, 0, 0, 0, 0, 0, 1, 2, 3, 4, 5, 6, 7, 8];
    let source = IPTuple::SourceAddress(IpAddress::V6(v6));
    assert_eq!(source.kind(), 3);
    assert_eq!(source.value_len(), 16);
    assert_eq!(emitted(&source), attr(3, &v6));
    let destination = IPTuple::DestinationAddress(IpAddress::V6(v6));
    assert_eq!(destination.kind(), 4);
    assert_eq!(emitted(&destination), attr(4, &v6));
    assert_eq!(parsed::<IPTuple>(&emitted(&destination)), Ok(destination));
}

#[test]
fn tcp_group_members() {
    assert_eq!(parsed::<ProtoInfoTCP>(&attr(1, &[3])), Ok(ProtoInfoTCP::State(3)));
    assert_eq!(parsed::<ProtoInfoTCP>(&attr(2, &[7])), Ok(ProtoInfoTCP::OriginalWindowScale(7)));
    assert_eq!(parsed::<ProtoInfoTCP>(&attr(3, &[9])), Ok(ProtoInfoTCP::ReplyWindowScale(9)));
    assert_eq!(
        parsed::<ProtoInfoTCP>(&attr(4, &[0x0a, 0x0a])),
        Ok(ProtoInfoTCP::OriginalFlags(TCPFlags { flags: 10, mask: 10 }))
    );
    assert_eq!(
        parsed::<ProtoInfoTCP>(&attr(5, &[0x23, 0x3f])),
        Ok(ProtoInfoTCP::ReplyFlags(TCPFlags { flags: 0x23, mask: 0x3f }))
    );
    assert_eq!(ProtoInfoTCP::State(3).kind(), 1);
    assert_eq!(ProtoInfoTCP::OriginalWindowScale(7).kind(), 2);
    assert_eq!(ProtoInfoTCP::ReplyWindowScale(7).kind(), 3);
    assert_eq!(ProtoInfoTCP::OriginalFlags(TCPFlags { flags: 1, mask: 1 }).kind(), 4);
    assert_eq!(ProtoInfoTCP::ReplyFlags(TCPFlags { flags: 1, mask: 1 }).kind(), 5);
    assert_eq!(ProtoInfoTCP::State(3).value_len(), 1);
    assert_eq!(ProtoInfoTCP::ReplyFlags(TCPFlags { flags: 1, mask: 1 }).value_len(), 2);
}

#[test]
fn tcp_group_exact_bytes() {
    assert_eq!(
        emitted(&ProtoInfoTCP::State(3)),
        vec![0x05, 0x00, 0x01, 0x00, 0x03, 0x00, 0x00, 0x00]
    );
    assert_eq!(
        emitted(&ProtoInfoTCP::OriginalWindowScale(7)),
        vec![0x05, 0x00, 0x02, 0x00, 0x07, 0x00, 0x00, 0x00]
    );
    assert_eq!(
        emitted(&ProtoInfoTCP::ReplyWindowScale(9)),
        vec![0x05, 0x00, 0x03, 0x00, 0x09, 0x00, 0x00, 0x00]
    );
    assert_eq!(
        emitted(&ProtoInfoTCP::OriginalFlags(TCPFlags { flags: 10, mask: 10 })),
        vec![0x06, 0x00, 0x04, 0x00, 0x0a, 0x0a, 0x00, 0x00]
    );
    assert_eq!(
        emitted(&ProtoInfoTCP::ReplyFlags(TCPFlags { flags: 10, mask: 10 })),
        vec![0x06, 0x00, 0x05, 0x00, 0x0a, 0x0a, 0x00, 0x00]
    );
}

#[test]
fn tcp_group_wrong_lengths() {
    assert_eq!(
        parsed::<ProtoInfoTCP>(&attr(1, &[])),
        Err(value_length(Attribute::CtaProtoInfoTcpState))
    );
    assert_eq!(
        parsed::<ProtoInfoTCP>(&attr(2, &[1, 2])),
        Err(value_length(Attribute::CtaProtoInfoTcpWscaleOriginal))
    );
    assert_eq!(
        parsed::<ProtoInfoTCP>(&attr(3, &[1, 2, 3])),
        Err(value_length(Attribute::CtaProtoInfoTcpWscaleReply))
    );
    assert_eq!(
        parsed::<ProtoInfoTCP>(&attr(4, &[0x0a])),
        Err(value_length(Attribute::CtaProtoInfoTcpFlagsOriginal))
    );
    assert_eq!(
        parsed::<ProtoInfoTCP>(&attr(5, &[0x0a, 0x0a, 0x0a])),
        Err(value_length(Attribute::CtaProtoInfoTcpFlagsReply))
    );
}

#[test]
fn unknown_kinds_are_kept_as_they_came() {
    // at the top level, among the tuple members and in the protocol
    // information, with and without the flag bits
    for kind in [9u16, NESTED | 9, NET_BYTEORDER | 9, NESTED | NET_BYTEORDER | 9, 0x3fff] {
        for value in [vec![], vec![1u8], vec![1, 2, 3, 4], vec![1, 2, 3, 4, 5, 6, 7]] {
            let bytes = attr(kind, &value);
            let kept = OpaqueNla::new(kind, value.clone());

            let top = parsed::<ConntrackNla>(&bytes).unwrap();
            assert_eq!(top, ConntrackNla::Other(kept.clone()));
            assert_eq!(emitted(&top), bytes);

            let member = parsed::<Tuple>(&bytes).unwrap();
            assert_eq!(member, Tuple::Other(kept.clone()));
            assert_eq!(emitted(&member), bytes);

            let info = parsed::<ProtoInfo>(&bytes).unwrap();
            assert_eq!(info, ProtoInfo::Other(kept.clone()));
            assert_eq!(emitted(&info), bytes);

            let address = parsed::<IPTuple>(&bytes).unwrap();
            assert_eq!(address, IPTuple::Other(kept.clone()));
            assert_eq!(emitted(&address), bytes);

            let protocol = parsed::<ProtoTuple>(&bytes).unwrap();
            assert_eq!(protocol, ProtoTuple::Other(kept.clone()));
            assert_eq!(emitted(&protocol), bytes);

            let tcp = parsed::<ProtoInfoTCP>(&bytes).unwrap();
            assert_eq!(tcp, ProtoInfoTCP::Other(kept.clone()));
            assert_eq!(emitted(&tcp), bytes);

            let plain = parsed::<OpaqueNla>(&bytes).unwrap();
            assert_eq!(plain, kept);
            assert_eq!(emitted(&plain), bytes);
        }
    }
}

#[test]
fn opaque_attribute_reports_its_fields() {
    let nla = OpaqueNla::new(NESTED | 7, vec![1, 2, 3]);
    assert_eq!(nla.kind(), NESTED | 7);
    assert_eq!(nla.value_len(), 3);
    assert!(nla.is_nested());
    assert!(!OpaqueNla::new(7, vec![]).is_nested());
    assert_eq!(nla.buffer_len(), 8);
    let mut value = [0u8; 3];
    nla.emit_value(&mut value);
    assert_eq!(value, [1, 2, 3]);
}

#[test]
fn only_the_known_variants_report_nesting() {
    assert!(ConntrackNla::CtaTupleOrig(vec![]).is_nested());
    assert!(ConntrackNla::CtaProtoInfo(vec![]).is_nested());
    assert!(!ConntrackNla::Other(OpaqueNla::new(NESTED | 9, vec![])).is_nested());
    assert!(Tuple::Ip(vec![]).is_nested());
    assert!(Tuple::Proto(vec![]).is_nested());
    assert!(!Tuple::Other(OpaqueNla::new(9, vec![])).is_nested());
    assert!(ProtoInfo::TCP(vec![]).is_nested());
    assert!(!ProtoInfo::Other(OpaqueNla::new(9, vec![])).is_nested());
    assert!(!ProtoTuple::Protocol(6).is_nested());
    assert!(ProtoTuple::Other(OpaqueNla::new(NESTED | 9, vec![])).is_nested());
}

#[test]
fn known_kinds_are_read_whatever_their_flags() {
    let members = concat(&[attr(1, &[6])]);
    let group = attr(2, &members);
    // the nested flag is missing, the byte-order flag is set
    assert_eq!(
        parsed::<Tuple>(&group),
        Ok(Tuple::Proto(vec![ProtoTuple::Protocol(6)]))
    );
    assert_eq!(
        parsed::<Tuple>(&attr(NET_BYTEORDER | 2, &members)),
        Ok(Tuple::Proto(vec![ProtoTuple::Protocol(6)]))
    );
    // written back, the group carries the nested flag and no other
    assert_eq!(
        emitted(&Tuple::Proto(vec![ProtoTuple::Protocol(6)])),
        attr(NESTED | 2, &members)
    );
}

#[test]
fn nested_groups_exact_bytes() {
    let ip = Tuple::Ip(vec![
        IPTuple::SourceAddress(IpAddress::V4([10, 57, 97, 124])),
        IPTuple::DestinationAddress(IpAddress::V4([148, 113, 20, 105])),
    ]);
    assert_eq!(ip.kind(), 1);
    assert_eq!(ip.value_len(), 16);
    assert_eq!(ip.buffer_len(), 20);
    assert_eq!(
        emitted(&ip),
        vec![
            0x14, 0x00, 0x01, 0x80, 0x08, 0x00, 0x01, 0x00, 0x0a, 0x39, 0x61, 0x7c, 0x08, 0x00,
            0x02, 0x00, 0x94, 0x71, 0x14, 0x69,
        ]
    );
    let proto = Tuple::Proto(vec![
        ProtoTuple::Protocol(6),
        ProtoTuple::SourcePort(39600),
        ProtoTuple::DestinationPort(443),
    ]);
    assert_eq!(proto.kind(), 2);
    assert_eq!(proto.value_len(), 24);
    assert_eq!(
        emitted(&proto),
        vec![
            0x1c, 0x00, 0x02, 0x80, 0x05, 0x00, 0x01, 0x00, 0x06, 0x00, 0x00, 0x00, 0x06, 0x00,
            0x02, 0x00, 0x9a, 0xb0, 0x00, 0x00, 0x06, 0x00, 0x03, 0x00, 0x01, 0xbb, 0x00, 0x00,
        ]
    );
    let orig = ConntrackNla::CtaTupleOrig(vec![ip, proto]);
    assert_eq!(orig.kind(), 1);
    assert_eq!(orig.value_len(), 48);
    assert_eq!(orig.buffer_len(), 52);
    let info = ConntrackNla::CtaProtoInfo(vec![ProtoInfo::TCP(vec![
        ProtoInfoTCP::OriginalFlags(TCPFlags { flags: 10, mask: 10 }),
        ProtoInfoTCP::ReplyFlags(TCPFlags { flags: 10, mask: 10 }),
    ])]);
    assert_eq!(info.kind(), 4);
    assert_eq!(
        emitted(&info),
        vec![
            0x18, 0x00, 0x04, 0x80, 0x14, 0x00, 0x01, 0x80, 0x06, 0x00, 0x04, 0x00, 0x0a, 0x0a,
            0x00, 0x00, 0x06, 0x00, 0x05, 0x00, 0x0a, 0x0a, 0x00, 0x00,
        ]
    );
    assert_eq!(parsed::<ConntrackNla>(&emitted(&info)), Ok(info));
    assert_eq!(parsed::<ConntrackNla>(&emitted(&orig)), Ok(orig));
}

#[test]
fn empty_groups() {
    assert_eq!(emitted(&ConntrackNla::CtaTupleOrig(vec![])), attr(NESTED | 1, &[]));
    assert_eq!(emitted(&ConntrackNla::CtaProtoInfo(vec![])), attr(NESTED | 4, &[]));
    assert_eq!(emitted(&Tuple::Ip(vec![])), attr(NESTED | 1, &[]));
    assert_eq!(emitted(&ProtoInfo::TCP(vec![])), attr(NESTED | 1, &[]));
    assert_eq!(
        parsed::<ConntrackNla>(&attr(NESTED | 1, &[])),
        Ok(ConntrackNla::CtaTupleOrig(vec![]))
    );
    assert_eq!(parsed::<ProtoInfo>(&attr(NESTED | 1, &[])), Ok(ProtoInfo::TCP(vec![])));
}

#[test]
fn length_field_leaves_the_padding_out() {
    for len in 0usize..9 {
        let nla = OpaqueNla::new(9, vec![0x55; len]);
        let bytes = emitted(&nla);
        assert_eq!(u16::from_ne_bytes([bytes[0], bytes[1]]) as usize, 4 + len);
        assert_eq!(bytes.len(), 4 + (len + 3) / 4 * 4);
        assert_eq!(bytes.len(), nla.buffer_len());
        assert!(bytes[4 + len..].iter().all(|b| *b == 0));
    }
}

#[test]
fn padding_is_skipped_between_siblings() {
    let bytes = concat(&[
        attr(1, &[6]),
        attr(2, &[0x9a, 0xb0]),
        attr(9, &[1, 2, 3]),
        attr(3, &[0x01, 0xbb]),
    ]);
    assert_eq!(
        parse_all::<ProtoTuple>(&bytes, None),
        Ok(vec![
            ProtoTuple::Protocol(6),
            ProtoTuple::SourcePort(39600),
            ProtoTuple::Other(OpaqueNla::new(9, vec![1, 2, 3])),
            ProtoTuple::DestinationPort(443),
        ])
    );
}

#[test]
fn padding_bytes_are_not_read() {
    let mut bytes = concat(&[attr(1, &[6]), attr(2, &[0x9a, 0xb0])]);
    bytes[5] = 0xaa;
    bytes[6] = 0xbb;
    bytes[7] = 0xcc;
    bytes[14] = 0xdd;
    assert_eq!(
        parse_all::<ProtoTuple>(&bytes, None),
        Ok(vec![ProtoTuple::Protocol(6), ProtoTuple::SourcePort(39600)])
    );
}

#[test]
fn last_attribute_may_lack_its_padding() {
    let mut bytes = concat(&[attr(2, &[0, 53]), attr(1, &[6])]);
    bytes.truncate(13);
    assert_eq!(
        parse_all::<ProtoTuple>(&bytes, None),
        Ok(vec![ProtoTuple::SourcePort(53), ProtoTuple::Protocol(6)])
    );
}

#[test]
fn empty_sequence() {
    assert_eq!(parse_all::<ConntrackNla>(&[], None), Ok(vec![]));
    let none: Vec<ConntrackNla> = vec![];
    assert_eq!(buffer_len_all(&none), 0);
    assert_eq!(checked_len_all(&none, 0), Some(0));
    let mut buffer = [7u8; 2];
    emit_all(&none, &mut buffer);
    assert_eq!(buffer, [7, 7]);
}

#[test]
fn framing_errors_name_the_enclosing_attribute() {
    // three stray bytes where a member should start
    let stray = [1u8, 2, 3];
    assert_eq!(parse_all::<ConntrackNla>(&stray, None), Err(framing(None)));
    assert_eq!(
        parsed::<ConntrackNla>(&attr(NESTED | 1, &stray)),
        Err(framing(Some(Attribute::CtaTupleOrig)))
    );
    assert_eq!(
        parsed::<ConntrackNla>(&attr(NESTED | 4, &stray)),
        Err(framing(Some(Attribute::CtaProtoInfo)))
    );
    assert_eq!(
        parsed::<Tuple>(&attr(NESTED | 1, &stray)),
        Err(framing(Some(Attribute::CtaTupleIp)))
    );
    assert_eq!(
        parsed::<Tuple>(&attr(NESTED | 2, &stray)),
        Err(framing(Some(Attribute::CtaTupleProto)))
    );
    assert_eq!(
        parsed::<ProtoInfo>(&attr(NESTED | 1, &stray)),
        Err(framing(Some(Attribute::CtaProtoInfoTcp)))
    );
}

#[test]
fn declared_length_past_the_end_is_a_framing_error() {
    let mut member = attr(1, &[6]);
    member[0..2].copy_from_slice(&12u16.to_ne_bytes());
    assert_eq!(parse_all::<ProtoTuple>(&member, None), Err(framing(None)));
    assert_eq!(
        parsed::<Tuple>(&attr(NESTED | 2, &member)),
        Err(framing(Some(Attribute::CtaTupleProto)))
    );
    let mut short = attr(1, &[6]);
    short[0..2].copy_from_slice(&2u16.to_ne_bytes());
    assert_eq!(
        parsed::<Tuple>(&attr(NESTED | 2, &short)),
        Err(framing(Some(Attribute::CtaTupleProto)))
    );
}

#[test]
fn errors_inside_come_out_unchanged() {
    let bad_port = attr(NESTED | 2, &attr(2, &[53]));
    let tuple = attr(NESTED | 1, &bad_port);
    assert_eq!(parsed::<ConntrackNla>(&tuple), Err(value_length(Attribute::CtaProtoSrcPort)));
    assert_eq!(
        ConntrackMessage::parse_with_param(&tuple, 1),
        Err(value_length(Attribute::CtaProtoSrcPort))
    );
    let bad_address = attr(NESTED | 1, &attr(NESTED | 1, &attr(2, &[1, 2, 3])));
    assert_eq!(parsed::<ConntrackNla>(&bad_address), Err(value_length(Attribute::CtaIpDst)));
    let bad_flags = attr(NESTED | 4, &attr(NESTED | 1, &attr(5, &[1])));
    assert_eq!(
        parsed::<ConntrackNla>(&bad_flags),
        Err(value_length(Attribute::CtaProtoInfoTcpFlagsReply))
    );
}

#[test]
fn the_first_failure_decides() {
    let bytes = concat(&[attr(1, &[6]), attr(2, &[53]), attr(3, &[1, 2, 3])]);
    assert_eq!(
        parse_all::<ProtoTuple>(&bytes, None),
        Err(value_length(Attribute::CtaProtoSrcPort))
    );
    let mut then_stray = concat(&[attr(1, &[6, 6])]);
    then_stray.extend_from_slice(&[1, 2]);
    assert_eq!(
        parse_all::<ProtoTuple>(&then_stray, Some(Attribute::CtaTupleProto)),
        Err(value_length(Attribute::CtaProtoNum))
    );
    let mut stray_last = concat(&[attr(1, &[6])]);
    stray_last.extend_from_slice(&[1, 2]);
    assert_eq!(
        parse_all::<ProtoTuple>(&stray_last, Some(Attribute::CtaTupleProto)),
        Err(framing(Some(Attribute::CtaTupleProto)))
    );
}

#[test]
fn emit_leaves_the_rest_of_the_buffer() {
    let nla = ProtoTuple::Protocol(6);
    let mut buffer = vec![0xee; 11];
    nla.emit(&mut buffer);
    assert_eq!(buffer, vec![0x05, 0x00, 0x01, 0x00, 0x06, 0x00, 0x00, 0x00, 0xee, 0xee, 0xee]);
    let nlas = vec![ProtoTuple::Protocol(6), ProtoTuple::SourcePort(53)];
    let mut longer = vec![0xee; 18];
    emit_all(&nlas, &mut longer);
    assert_eq!(&longer[..16], &concat(&[attr(1, &[6]), attr(2, &[0, 53])])[..]);
    assert_eq!(&longer[16..], &[0xee, 0xee]);
}

#[test]
fn sequence_lengths() {
    let nlas = vec![
        ProtoTuple::Protocol(6),
        ProtoTuple::SourcePort(53),
        ProtoTuple::Other(OpaqueNla::new(9, vec![0; 5])),
    ];
    assert_eq!(buffer_len_all(&nlas), 8 + 8 + 12);
    assert_eq!(checked_len_all(&nlas, 28), Some(28));
    assert_eq!(checked_len_all(&nlas, 27), None);
    assert_eq!(checked_len_all(&nlas, usize::MAX), Some(28));
}

#[test]
fn values_too_long_for_the_length_field() {
    let fits = OpaqueNla::new(9, vec![0; 65531]);
    assert!(fits.encodable());
    assert_eq!(fits.buffer_len(), 65536);
    let bytes = emitted(&fits);
    assert_eq!(u16::from_ne_bytes([bytes[0], bytes[1]]), 65535);
    assert_eq!(parsed::<OpaqueNla>(&bytes), Ok(fits));

    let too_long = OpaqueNla::new(9, vec![0; 65532]);
    assert!(!too_long.encodable());
    assert!(!ConntrackNla::Other(too_long.clone()).encodable());
    assert!(!ProtoTuple::Other(too_long.clone()).encodable());
    assert!(!Tuple::Proto(vec![ProtoTuple::Other(too_long.clone())]).encodable());
    assert_eq!(checked_len_all(&vec![too_long.clone()], usize::MAX), None);
    assert!(!ConntrackMessage::Other { message_type: 9, nlas: vec![too_long] }.encodable());

    // each member fits, the group does not
    let half = ProtoTuple::Other(OpaqueNla::new(9, vec![0; 40000]));
    assert!(half.encodable());
    let group = Tuple::Proto(vec![half.clone(), half.clone()]);
    assert!(!group.encodable());
    // a message has no such limit
    let message = ConntrackMessage::Get(vec![
        ConntrackNla::Other(OpaqueNla::new(9, vec![0; 40000])),
        ConntrackNla::Other(OpaqueNla::new(9, vec![0; 40000])),
    ]);
    assert!(message.encodable());
    assert_eq!(message.buffer_len(), 80008);
}

#[test]
fn message_type_tags() {
    assert_eq!(ConntrackMessage::SUBSYS, 1);
    assert_eq!(ConntrackMessage::Get(vec![]).message_type(), 1);
    assert_eq!(ConntrackMessage::Other { message_type: 7, nlas: vec![] }.message_type(), 7);
}

#[test]
fn other_message_types_keep_their_attributes() {
    let body = concat(&[
        attr(NESTED | 1, &attr(NESTED | 2, &attr(1, &[6]))),
        attr(3, &[1, 2, 3, 4, 5]),
    ]);
    let message = ConntrackMessage::parse_with_param(&body, 0).unwrap();
    assert_eq!(
        message,
        ConntrackMessage::Other {
            message_type: 0,
            nlas: vec![
                OpaqueNla::new(NESTED | 1, attr(NESTED | 2, &attr(1, &[6]))),
                OpaqueNla::new(3, vec![1, 2, 3, 4, 5]),
            ],
        }
    );
    assert_eq!(message.message_type(), 0);
    assert_eq!(message.buffer_len(), body.len());
    assert_eq!(emitted(&message), body);
    // under the query type the same body is interpreted
    assert_eq!(
        ConntrackMessage::parse_with_param(&body, 1),
        Ok(ConntrackMessage::Get(vec![
            ConntrackNla::CtaTupleOrig(vec![Tuple::Proto(vec![ProtoTuple::Protocol(6)])]),
            ConntrackNla::Other(OpaqueNla::new(3, vec![1, 2, 3, 4, 5])),
        ]))
    );
    assert_eq!(ConntrackMessage::parse_with_param(&[1, 2, 3], 7), Err(framing(None)));
    assert_eq!(ConntrackMessage::parse_with_param(&[1, 2, 3], 1), Err(framing(None)));
}

#[test]
fn messages_come_back_in_their_order() {
    let message = ConntrackMessage::Get(vec![
        ConntrackNla::CtaProtoInfo(vec![
            ProtoInfo::Other(OpaqueNla::new(NESTED | 2, vec![9])),
            ProtoInfo::TCP(vec![
                ProtoInfoTCP::ReplyWindowScale(2),
                ProtoInfoTCP::State(3),
                ProtoInfoTCP::Other(OpaqueNla::new(6, vec![])),
                ProtoInfoTCP::OriginalWindowScale(14),
            ]),
        ]),
        ConntrackNla::Other(OpaqueNla::new(NET_BYTEORDER | 8, vec![0, 0, 0, 60])),
        ConntrackNla::CtaTupleOrig(vec![
            Tuple::Proto(vec![ProtoTuple::DestinationPort(22), ProtoTuple::Protocol(6)]),
            Tuple::Other(OpaqueNla::new(3, vec![0, 1])),
            Tuple::Ip(vec![
                IPTuple::DestinationAddress(IpAddress::V6([1; 16])),
                IPTuple::SourceAddress(IpAddress::V4([192, 168, 0, 1])),
                IPTuple::Other(OpaqueNla::new(5, vec![1, 2, 3])),
            ]),
        ]),
        ConntrackNla::CtaTupleOrig(vec![]),
    ]);
    assert!(message.encodable());
    let bytes = emitted(&message);
    assert_eq!(bytes.len(), message.buffer_len());
    assert_eq!(bytes.len() % 4, 0);
    assert_eq!(ConntrackMessage::parse_with_param(&bytes, message.message_type()), Ok(message));
}

#[test]
fn an_opaque_attribute_of_a_known_kind_is_read_as_that_kind() {
    let disguised = ProtoTuple::Other(OpaqueNla::new(1, vec![6]));
    assert_eq!(parsed::<ProtoTuple>(&emitted(&disguised)), Ok(ProtoTuple::Protocol(6)));
    let disguised_message = ConntrackMessage::Other { message_type: 1, nlas: vec![] };
    assert_eq!(
        ConntrackMessage::parse_with_param(&emitted(&disguised_message), 1),
        Ok(ConntrackMessage::Get(vec![]))
    );
}

#[test]
fn variants_tell_themselves_apart() {
    let tuple = ConntrackNla::CtaTupleOrig(vec![]);
    assert!(tuple.is_cta_tuple_orig() && !tuple.is_cta_proto_info() && !tuple.is_other());
    let info = ConntrackNla::CtaProtoInfo(vec![]);
    assert!(!info.is_cta_tuple_orig() && info.is_cta_proto_info() && !info.is_other());
    let other = ConntrackNla::Other(OpaqueNla::new(9, vec![]));
    assert!(!other.is_cta_tuple_orig() && !other.is_cta_proto_info() && other.is_other());

    assert!(Tuple::Ip(vec![]).is_ip() && !Tuple::Ip(vec![]).is_proto());
    assert!(Tuple::Proto(vec![]).is_proto() && !Tuple::Proto(vec![]).is_other());
    assert!(Tuple::Other(OpaqueNla::new(9, vec![])).is_other());

    assert!(ProtoInfo::TCP(vec![]).is_tcp() && !ProtoInfo::TCP(vec![]).is_other());
    assert!(ProtoInfo::Other(OpaqueNla::new(9, vec![])).is_other());

    let address = IpAddress::V4([127, 0, 0, 1]);
    assert!(IPTuple::SourceAddress(address).is_source_address());
    assert!(!IPTuple::SourceAddress(address).is_destination_address());
    assert!(IPTuple::DestinationAddress(address).is_destination_address());
    assert!(IPTuple::Other(OpaqueNla::new(9, vec![])).is_other());

    assert!(ProtoTuple::Protocol(6).is_protocol() && !ProtoTuple::Protocol(6).is_source_port());
    assert!(ProtoTuple::SourcePort(1).is_source_port());
    assert!(ProtoTuple::DestinationPort(1).is_destination_port());
    assert!(ProtoTuple::Other(OpaqueNla::new(9, vec![])).is_other());

    let flags = TCPFlags { flags: 1, mask: 1 };
    assert!(ProtoInfoTCP::State(1).is_state() && !ProtoInfoTCP::State(1).is_other());
    assert!(ProtoInfoTCP::OriginalWindowScale(1).is_original_window_scale());
    assert!(ProtoInfoTCP::ReplyWindowScale(1).is_reply_window_scale());
    assert!(ProtoInfoTCP::OriginalFlags(flags).is_original_flags());
    assert!(ProtoInfoTCP::ReplyFlags(flags).is_reply_flags());
    assert!(!ProtoInfoTCP::ReplyFlags(flags).is_original_flags());
    assert!(ProtoInfoTCP::Other(OpaqueNla::new(9, vec![])).is_other());
}

#[test]
fn bare_values_become_attributes() {
    let kept = OpaqueNla::new(9, vec![1]);
    assert_eq!(
        ConntrackNla::from(vec![Tuple::Ip(vec![])]),
        ConntrackNla::CtaTupleOrig(vec![Tuple::Ip(vec![])])
    );
    assert_eq!(
        ConntrackNla::from(vec![ProtoInfo::TCP(vec![])]),
        ConntrackNla::CtaProtoInfo(vec![ProtoInfo::TCP(vec![])])
    );
    assert_eq!(ConntrackNla::from(kept.clone()), ConntrackNla::Other(kept.clone()));
    assert_eq!(
        Tuple::from(vec![IPTuple::SourceAddress(IpAddress::V4([1, 2, 3, 4]))]),
        Tuple::Ip(vec![IPTuple::SourceAddress(IpAddress::V4([1, 2, 3, 4]))])
    );
    assert_eq!(
        Tuple::from(vec![ProtoTuple::Protocol(6)]),
        Tuple::Proto(vec![ProtoTuple::Protocol(6)])
    );
    assert_eq!(Tuple::from(kept.clone()), Tuple::Other(kept.clone()));
    assert_eq!(
        ProtoInfo::from(vec![ProtoInfoTCP::State(3)]),
        ProtoInfo::TCP(vec![ProtoInfoTCP::State(3)])
    );
    assert_eq!(ProtoInfo::from(kept.clone()), ProtoInfo::Other(kept.clone()));
    assert_eq!(ProtoInfoTCP::from(3u8), ProtoInfoTCP::State(3));
    assert_eq!(
        ProtoInfoTCP::from(TCPFlags { flags: 2, mask: 3 }),
        ProtoInfoTCP::OriginalFlags(TCPFlags { flags: 2, mask: 3 })
    );
    assert_eq!(ProtoInfoTCP::from(kept.clone()), ProtoInfoTCP::Other(kept.clone()));
    assert_eq!(ProtoTuple::from(6u8), ProtoTuple::Protocol(6));
    assert_eq!(ProtoTuple::from(443u16), ProtoTuple::SourcePort(443));
    assert_eq!(ProtoTuple::from(kept.clone()), ProtoTuple::Other(kept.clone()));
    assert_eq!(
        IPTuple::from(IpAddress::V6([9; 16])),
        IPTuple::SourceAddress(IpAddress::V6([9; 16]))
    );
    assert_eq!(IPTuple::from(kept.clone()), IPTuple::Other(kept));
}
