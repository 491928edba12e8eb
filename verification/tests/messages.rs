// Whole netlink messages, as captured from the wire: the netlink header and
// the netfilter header are written and read here, the body by the library.

use netlink_packet_core::DecodeError;
use netlink_packet_core::NetlinkDeserializable;
use netlink_packet_core::NetlinkHeader;
use netlink_packet_core::NetlinkMessage;
use netlink_packet_core::NetlinkPayload;
use netlink_packet_core::NetlinkSerializable;
use netlink_packet_core::NLM_F_DUMP;
use netlink_packet_core::NLM_F_REQUEST;
use netlink_packet_netfilter::conntrack::nlas::nla::ConntrackNla;
use netlink_packet_netfilter::conntrack::nlas::IPTuple;
use netlink_packet_netfilter::conntrack::nlas::IpAddress;
use netlink_packet_netfilter::conntrack::nlas::ProtoInfo;
use netlink_packet_netfilter::conntrack::nlas::ProtoInfoTCP;
use netlink_packet_netfilter::conntrack::nlas::ProtoTuple;
use netlink_packet_netfilter::conntrack::nlas::TCPFlags;
use netlink_packet_netfilter::conntrack::nlas::Tuple;
use netlink_packet_netfilter::conntrack::ConntrackMessage;
use netlink_packet_netfilter::nla::Emitable;

const AF_UNSPEC: u8 = 0;
const AF_INET: u8 = 2;
const NETFILTER_HEADER_LEN: usize = 4;

#[derive(Debug, PartialEq, Eq, Clone)]
struct NetfilterHeader {
    family: u8,
    version: u8,
    res_id: u16,
}

impl NetfilterHeader {
    fn new(family: u8, version: u8, res_id: u16) -> Self {
        NetfilterHeader { family, version, res_id }
    }
}

#[derive(Debug, PartialEq, Eq, Clone)]
struct NetfilterMessage {
    header: NetfilterHeader,
    inner: ConntrackMessage,
}

impl NetfilterMessage {
    fn new(header: NetfilterHeader, inner: ConntrackMessage) -> Self {
        NetfilterMessage { header, inner }
    }
}

impl NetlinkSerializable for NetfilterMessage {
    fn message_type(&self) -> u16 {
        (u16::from(ConntrackMessage::SUBSYS) << 8) | u16::from(self.inner.message_type())
    }

    fn buffer_len(&self) -> usize {
        assert!(self.inner.encodable());
        NETFILTER_HEADER_LEN + self.inner.buffer_len()
    }

    fn serialize(&self, buffer: &mut [u8]) {
        assert!(self.inner.encodable());
        buffer[0] = self.header.family;
        buffer[1] = self.header.version;
        buffer[2..4].copy_from_slice(&self.header.res_id.to_be_bytes());
        self.inner.emit(&mut buffer[NETFILTER_HEADER_LEN..]);
    }
}

impl NetlinkDeserializable for NetfilterMessage {
    type Error = DecodeError;

    fn deserialize(header: &NetlinkHeader, payload: &[u8]) -> Result<Self, Self::Error> {
        if payload.len() < NETFILTER_HEADER_LEN {
            return Err(DecodeError::from("netfilter header too short"));
        }
        let [subsys, message_type] = header.message_type.to_be_bytes();
        if subsys != ConntrackMessage::SUBSYS {
            return Err(DecodeError::from("not a conntrack message"));
        }
        let nf_header = NetfilterHeader::new(
            payload[0],
            payload[1],
            u16::from_be_bytes([payload[2], payload[3]]),
        );
        match ConntrackMessage::parse_with_param(&payload[NETFILTER_HEADER_LEN..], message_type) {
            Ok(inner) => Ok(NetfilterMessage::new(nf_header, inner)),
            Err(e) => Err(DecodeError::from(format!("{:?}", e))),
        }
    }
}

impl From<NetfilterMessage> for NetlinkPayload<NetfilterMessage> {
    fn from(message: NetfilterMessage) -> Self {
        NetlinkPayload::InnerMessage(message)
    }
}

// wireshark capture of nlmon against command:
// conntrack -L
#[test]
fn test_dump_conntrack() {
    let raw: Vec<u8> = vec![
        0x14, 0x00, 0x00, 0x00, 0x01, 0x01, 0x01, 0x03, 0xb9, 0x80, 0xc2, 0x68,
        0x00, 0x00, 0x00, 0x00, 0x00, 0x00, 0x00, 0x00,
    ];

    let mut expected: NetlinkMessage<NetfilterMessage> = NetfilterMessage::new(
        NetfilterHeader::new(AF_UNSPEC, 0, 0),
        ConntrackMessage::Get(vec![]),
    )
    .into();
    expected.header.flags = NLM_F_REQUEST | NLM_F_DUMP;
    expected.header.sequence_number = 1757577401;
    expected.finalize();

    let mut buffer = vec![0; expected.buffer_len()];
    expected.serialize(&mut buffer);

    // Check if the serialization was correct
    assert_eq!(buffer, raw);

    // Check if the deserialization was correct
    assert_eq!(
        expected,
        NetlinkMessage::<NetfilterMessage>::deserialize(&raw).unwrap()
    );
}

// wireshark capture of nlmon against command:
// conntrack -G -p tcp -s 10.57.97.124 -d 148.113.20.105 --sport 39600 --dport 443
#[test]
fn test_get_conntrack() {
    let raw: Vec<u8> = vec![
        0x60, 0x00, 0x00, 0x00, 0x01, 0x01, 0x01, 0x00, 0x92, 0xe5, 0xcf, 0x68,
        0x00, 0x00, 0x00, 0x00, 0x02, 0x00, 0x00, 0x00, 0x34, 0x00, 0x01, 0x80,
        0x14, 0x00, 0x01, 0x80, 0x08, 0x00, 0x01, 0x00, 0x0a, 0x39, 0x61, 0x7c,
        0x08, 0x00, 0x02, 0x00, 0x94, 0x71, 0x14, 0x69, 0x1c, 0x00, 0x02, 0x80,
        0x05, 0x00, 0x01, 0x00, 0x06, 0x00, 0x00, 0x00, 0x06, 0x00, 0x02, 0x00,
        0x9a, 0xb0, 0x00, 0x00, 0x06, 0x00, 0x03, 0x00, 0x01, 0xbb, 0x00, 0x00,
        0x18, 0x00, 0x04, 0x80, 0x14, 0x00, 0x01, 0x80, 0x06, 0x00, 0x04, 0x00,
        0x0a, 0x0a, 0x00, 0x00, 0x06, 0x00, 0x05, 0x00, 0x0a, 0x0a, 0x00, 0x00,
    ];

    let src_addr = IPTuple::SourceAddress(IpAddress::V4([10, 57, 97, 124]));
    let dst_addr = IPTuple::DestinationAddress(IpAddress::V4([148, 113, 20, 105]));

    let proto_num = ProtoTuple::Protocol(6);
    let src_port = ProtoTuple::SourcePort(39600);
    let dst_port = ProtoTuple::DestinationPort(443);

    let ip_tuple = Tuple::Ip(vec![src_addr, dst_addr]);
    let proto_tuple = Tuple::Proto(vec![proto_num, src_port, dst_port]);

    let proto_info = ProtoInfo::TCP(vec![
        ProtoInfoTCP::OriginalFlags(TCPFlags {
            flags: 10,
            mask: 10,
        }),
        ProtoInfoTCP::ReplyFlags(TCPFlags {
            flags: 10,
            mask: 10,
        }),
    ]);

    let nlas = vec![
        ConntrackNla::CtaTupleOrig(vec![ip_tuple, proto_tuple]),
        ConntrackNla::CtaProtoInfo(vec![proto_info]),
    ];

    let mut expected: NetlinkMessage<NetfilterMessage> = NetfilterMessage::new(
        NetfilterHeader::new(AF_INET, 0, 0),
        ConntrackMessage::Get(nlas),
    )
    .into();
    expected.header.flags = NLM_F_REQUEST;
    expected.header.sequence_number = 1758455186;
    expected.finalize();

    let mut buffer = vec![0; expected.buffer_len()];
    expected.serialize(&mut buffer);

    // Check if the serialization was correct
    assert_eq!(buffer, raw);

    // Check if the deserialization was correct
    assert_eq!(
        expected,
        NetlinkMessage::<NetfilterMessage>::deserialize(&raw).unwrap()
    );
}
