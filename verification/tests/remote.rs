use bytes::{Buf, BufMut, BytesMut};
use cinema::remote::cluster::{ClusterNode, Node, NodeInfo, NodeStatus};
use cinema::remote::envelope::Envelope;
use cinema::remote::handler::{MessageRouter, RemoteMessage};
use cinema::remote::registry::{
    deserialize_payload, register_message, RegistryError, TypeRegistry,
};
use cinema::remote::tcp::{EnvelopeCodec, FrameError};
use cinema::remote::wire::{put_varint, take_varint};
use cinema::remote::RemoteAddr;
use cinema::Message;
use prost::encoding::{DecodeContext, WireType};
use prost::{DecodeError, Message as ProstMessage};

#[derive(Clone, Debug, Default, PartialEq)]
struct Ping {
    message: String,
}

impl ProstMessage for Ping {
    fn encode_raw(&self, buf: &mut impl BufMut) {
        if !self.message.is_empty() {
            prost::encoding::string::encode(1, &self.message, buf);
        }
    }

    fn merge_field(
        &mut self,
        tag: u32,
        wire_type: WireType,
        buf: &mut impl Buf,
        ctx: DecodeContext,
    ) -> Result<(), DecodeError> {
        if tag == 1 {
            prost::encoding::string::merge(wire_type, &mut self.message, buf, ctx)
        } else {
            prost::encoding::skip_field(wire_type, tag, buf, ctx)
        }
    }

    fn encoded_len(&self) -> usize {
        if self.message.is_empty() {
            0
        } else {
            prost::encoding::string::encoded_len(1, &self.message)
        }
    }

    fn clear(&mut self) {
        self.message.clear();
    }
}

/// The envelope record as it goes on the wire.
#[derive(Clone, Debug, Default, PartialEq)]
struct WireEnvelope {
    message_type: String,
    payload: Vec<u8>,
    correlation_id: u64,
    sender_node: String,
    target_actor: String,
    is_response: bool,
}

impl WireEnvelope {
    fn of(e: &Envelope) -> WireEnvelope {
        WireEnvelope {
            message_type: e.message_type.clone(),
            payload: e.payload.clone(),
            correlation_id: e.correlation_id,
            sender_node: e.sender_node.clone(),
            target_actor: e.target_actor.clone(),
            is_response: e.is_response,
        }
    }
}

impl ProstMessage for WireEnvelope {
    fn encode_raw(&self, buf: &mut impl BufMut) {
        if !self.message_type.is_empty() {
            prost::encoding::string::encode(1, &self.message_type, buf);
        }
        if !self.payload.is_empty() {
            prost::encoding::bytes::encode(2, &self.payload, buf);
        }
        if self.correlation_id != 0 {
            prost::encoding::uint64::encode(3, &self.correlation_id, buf);
        }
        if !self.sender_node.is_empty() {
            prost::encoding::string::encode(4, &self.sender_node, buf);
        }
        if !self.target_actor.is_empty() {
            prost::encoding::string::encode(5, &self.target_actor, buf);
        }
        if self.is_response {
            prost::encoding::bool::encode(6, &self.is_response, buf);
        }
    }

    fn merge_field(
        &mut self,
        tag: u32,
        wire_type: WireType,
        buf: &mut impl Buf,
        ctx: DecodeContext,
    ) -> Result<(), DecodeError> {
        match tag {
            1 => prost::encoding::string::merge(wire_type, &mut self.message_type, buf, ctx),
            2 => prost::encoding::bytes::merge(wire_type, &mut self.payload, buf, ctx),
            3 => prost::encoding::uint64::merge(wire_type, &mut self.correlation_id, buf, ctx),
            4 => prost::encoding::string::merge(wire_type, &mut self.sender_node, buf, ctx),
            5 => prost::encoding::string::merge(wire_type, &mut self.target_actor, buf, ctx),
            6 => prost::encoding::bool::merge(wire_type, &mut self.is_response, buf, ctx),
            _ => prost::encoding::skip_field(wire_type, tag, buf, ctx),
        }
    }

    fn encoded_len(&self) -> usize {
        let mut len = 0;
        if !self.message_type.is_empty() {
            len += prost::encoding::string::encoded_len(1, &self.message_type);
        }
        if !self.payload.is_empty() {
            len += prost::encoding::bytes::encoded_len(2, &self.payload);
        }
        if self.correlation_id != 0 {
            len += prost::encoding::uint64::encoded_len(3, &self.correlation_id);
        }
        if !self.sender_node.is_empty() {
            len += prost::encoding::string::encoded_len(4, &self.sender_node);
        }
        if !self.target_actor.is_empty() {
            len += prost::encoding::string::encoded_len(5, &self.target_actor);
        }
        if self.is_response {
            len += prost::encoding::bool::encoded_len(6, &self.is_response);
        }
        len
    }

    fn clear(&mut self) {
        *self = WireEnvelope::default();
    }
}

impl Message for Ping {
    type Result = ();
}

impl RemoteMessage for Ping {
    fn type_id() -> &'static str {
        "test::Ping"
    }
}

struct Pong;

impl Message for Pong {
    type Result = ();
}

impl RemoteMessage for Pong {
    fn type_id() -> &'static str {
        "test::Pong"
    }
}

fn decode_ping(bytes: &[u8]) -> Option<Ping> {
    Ping::decode(bytes).ok()
}

#[test]
fn envelope_roundtrip() {
    let ping = Ping {
        message: "Hello, World!".to_string(),
    };

    let envelope = Envelope::request(
        <Ping as RemoteMessage>::type_id(),
        ping.encode_to_vec(),
        42,
        "node",
        "actor",
    );

    assert_eq!(envelope.message_type, "test::Ping");
    assert_eq!(envelope.correlation_id, 42);

    let serialized = envelope.to_bytes();
    assert_eq!(serialized, WireEnvelope::of(&envelope).encode_to_vec());

    let decoded = Envelope::from_bytes(&serialized).unwrap();
    assert_eq!(decoded.message_type, "test::Ping");
    assert_eq!(decoded.correlation_id, 42);
    assert_eq!(decoded.sender_node, "node");
    assert_eq!(decoded.target_actor, "actor");
    assert!(!decoded.is_response);
    assert_eq!(decoded.payload, envelope.payload);
    assert_eq!(decode_ping(&decoded.payload), Some(ping));
}

#[test]
fn codec_writes_and_reads_envelopes() {
    let mut codec = EnvelopeCodec;
    let mut stream = BytesMut::new();
    for envelope in samples() {
        assert_eq!(codec.encode(envelope, &mut stream), Ok(()));
    }
    for envelope in samples() {
        let read = codec.decode(&mut stream).unwrap().unwrap();
        assert_eq!(WireEnvelope::of(&read), WireEnvelope::of(&envelope));
    }
    assert!(stream.is_empty());
    assert!(matches!(codec.decode(&mut stream), Ok(None)));
}

#[test]
fn codec_waits_then_reads() {
    let mut codec = EnvelopeCodec;
    let mut whole = BytesMut::new();
    let envelope = Envelope::request("test::Ping", vec![1, 2, 3], 42, "node", "actor");
    assert_eq!(codec.encode(envelope.clone(), &mut whole), Ok(()));
    let mut stream = BytesMut::new();
    for byte in &whole[..whole.len() - 1] {
        stream.extend_from_slice(&[*byte]);
        assert!(matches!(codec.decode(&mut stream), Ok(None)));
    }
    stream.extend_from_slice(&whole[whole.len() - 1..]);
    let read = codec.decode(&mut stream).unwrap().unwrap();
    assert_eq!(WireEnvelope::of(&read), WireEnvelope::of(&envelope));
}

#[test]
fn codec_reports_malformed_frame_and_goes_on() {
    let mut codec = EnvelopeCodec;
    let mut stream = BytesMut::new();
    stream.extend_from_slice(&[0, 0, 0, 2, 0x0a, 5]);
    stream.extend_from_slice(&[0, 0, 0, 2, 0x18, 9]);
    assert!(matches!(codec.decode(&mut stream), Err(FrameError::Malformed)));
    assert_eq!(stream.len(), 6);
    let read = codec.decode(&mut stream).unwrap().unwrap();
    assert_eq!(read.correlation_id, 9);
}

#[test]
fn envelope_travels_in_a_frame() {
    let envelope = Envelope::request("test::Ping", vec![1, 2, 3], 42, "node", "actor");
    let serialized = envelope.to_bytes();

    let mut codec = EnvelopeCodec;
    let mut stream = BytesMut::new();
    assert_eq!(codec.encode_frame(&serialized, &mut stream), Ok(()));
    assert_eq!(stream.len(), serialized.len() + 4);

    let frame = codec.decode_frame(&mut stream).unwrap();
    assert_eq!(frame, serialized);
    assert!(stream.is_empty());

    let decoded = Envelope::from_bytes(&frame).unwrap();
    assert_eq!(WireEnvelope::of(&decoded), WireEnvelope::of(&envelope));
}

fn samples() -> Vec<Envelope> {
    let long = "x".repeat(300);
    vec![
        Envelope::request("", vec![], 0, "", ""),
        Envelope::request("test::Ping", vec![0, 255, 128], 1, "node", "actor"),
        Envelope::request("t", vec![9; 200], 127, "n", "a"),
        Envelope::request("t", vec![], 128, "", "a"),
        Envelope::request("", vec![1], 16383, "n", ""),
        Envelope::request("gr\u{fc}\u{df}e::\u{4f60}\u{597d}", vec![], 16384, "n\u{f6}de", "\u{1f600}"),
        Envelope::request(&long, vec![7; 70000], u64::MAX, &long, &long),
        Envelope::request("a", vec![1], 1 << 63, "b", "c").response("r", vec![], "d"),
        Envelope::request("", vec![], 0, "", "").response("", vec![], ""),
    ]
}

#[test]
fn record_bytes_are_those_of_protobuf() {
    for envelope in samples() {
        let wire = WireEnvelope::of(&envelope);
        assert_eq!(envelope.to_bytes(), wire.encode_to_vec());
    }
}

#[test]
fn record_reads_what_protobuf_wrote() {
    for envelope in samples() {
        let wire = WireEnvelope::of(&envelope);
        let read = Envelope::from_bytes(&wire.encode_to_vec()).unwrap();
        assert_eq!(WireEnvelope::of(&read), wire);
    }
}

#[test]
fn record_round_trips() {
    for envelope in samples() {
        let read = Envelope::from_bytes(&envelope.to_bytes()).unwrap();
        assert_eq!(WireEnvelope::of(&read), WireEnvelope::of(&envelope));
    }
}

#[test]
fn record_literal_bytes() {
    let envelope = Envelope::request("ab", vec![0xff], 300, "n", "t").response("r", vec![5], "m");
    assert_eq!(
        envelope.to_bytes(),
        vec![0x0a, 1, b'r', 0x12, 1, 5, 0x18, 0xac, 0x02, 0x22, 1, b'm', 0x2a, 1, b'n', 0x30, 1]
    );
    assert_eq!(Envelope::request("", vec![], 0, "", "").to_bytes(), Vec::<u8>::new());
}

#[test]
fn record_empty_bytes_are_the_default_envelope() {
    let read = Envelope::from_bytes(&[]).unwrap();
    assert_eq!(WireEnvelope::of(&read), WireEnvelope::default());
}

#[test]
fn record_later_field_replaces_earlier() {
    let read = Envelope::from_bytes(&[0x18, 5, 0x18, 7, 0x0a, 1, b'a', 0x0a, 1, b'b']).unwrap();
    assert_eq!(read.correlation_id, 7);
    assert_eq!(read.message_type, "b");
}

#[test]
fn record_passes_over_unknown_fields() {
    // Field 9 as varint, field 10 as bytes, field 11 as fixed64, field 12 as fixed32.
    let bytes = [
        0x48, 0x96, 0x01, 0x18, 42, 0x52, 2, 1, 2, 0x59, 1, 2, 3, 4, 5, 6, 7, 8, 0x65, 1, 2, 3, 4,
        0x30, 1,
    ];
    let read = Envelope::from_bytes(&bytes).unwrap();
    assert_eq!(read.correlation_id, 42);
    assert!(read.is_response);
    let by_prost = WireEnvelope::decode(&bytes[..]).unwrap();
    assert_eq!(WireEnvelope::of(&read), by_prost);
}

#[test]
fn record_rejects_malformed_bytes() {
    let malformed: Vec<Vec<u8>> = vec![
        vec![0x0a],
        vec![0x0a, 5, b'x'],
        vec![0x18],
        vec![0x18, 0x80],
        vec![0x00, 1],
        vec![0x08, 1],
        vec![0x1a, 1, 1],
        vec![0x0a, 1, 0xff],
        vec![0x22, 2, 0xc3, 0x28],
        vec![0x19, 1, 2, 3, 4, 5, 6, 7, 8],
        vec![0x35, 1, 2, 3, 4],
        vec![0x59, 1, 2, 3],
        vec![0x1e],
        vec![0x1f],
        vec![0x18, 0xff, 0xff, 0xff, 0xff, 0xff, 0xff, 0xff, 0xff, 0xff, 0x02],
        vec![0x18, 0x80, 0x80, 0x80, 0x80, 0x80, 0x80, 0x80, 0x80, 0x80, 0x80, 0x00],
    ];
    for bytes in malformed {
        assert!(Envelope::from_bytes(&bytes).is_none(), "{:?}", bytes);
        assert!(WireEnvelope::decode(&bytes[..]).is_err(), "{:?}", bytes);
    }
}

#[test]
fn record_reads_largest_and_padded_varints() {
    let largest = [0x18, 0xff, 0xff, 0xff, 0xff, 0xff, 0xff, 0xff, 0xff, 0xff, 0x01];
    assert_eq!(Envelope::from_bytes(&largest).unwrap().correlation_id, u64::MAX);
    let padded = [0x18, 0x85, 0x80, 0x00];
    assert_eq!(Envelope::from_bytes(&padded).unwrap().correlation_id, 5);
    assert_eq!(WireEnvelope::decode(&padded[..]).unwrap().correlation_id, 5);
    let flag = [0x30, 0x02];
    assert!(Envelope::from_bytes(&flag).unwrap().is_response);
}

#[test]
fn varints_read_back() {
    for v in [0u64, 1, 127, 128, 300, 16383, 16384, u32::MAX as u64, 1 << 56, u64::MAX] {
        let mut out = vec![0xee];
        put_varint(&mut out, v);
        let mut by_prost = vec![0xee];
        prost::encoding::encode_varint(v, &mut by_prost);
        assert_eq!(out, by_prost);
        assert_eq!(take_varint(&out, 1, 10), Some((v, out.len())));
    }
    assert_eq!(take_varint(&[0x80], 0, 10), None);
    assert_eq!(take_varint(&[1], 1, 10), None);
    assert_eq!(take_varint(&[0x80, 0x01], 0, 1), None);
}

#[test]
fn envelope_clone_keeps_every_field() {
    let envelope = Envelope::request("t", vec![1, 2, 3], 9, "n", "a").response("r", vec![4], "m");
    let copy = envelope.clone();
    assert_eq!(WireEnvelope::of(&copy), WireEnvelope::of(&envelope));
    assert!(copy.is_response);
}

#[test]
fn nodes_compare_by_their_fields() {
    let a = Node { id: "a".to_string(), addr: "x".to_string(), status: NodeStatus::Up };
    let same = a.clone();
    let other = Node { id: "a".to_string(), addr: "x".to_string(), status: NodeStatus::Down };
    assert!(a == same);
    assert!(a != other);
}

#[test]
fn registry_deserialize() {
    let mut registry: TypeRegistry<fn(&[u8]) -> Option<Ping>> = TypeRegistry::new();
    register_message::<Ping, _>(&mut registry, decode_ping);

    let ping = Ping {
        message: "Hello, Registry!".to_string(),
    };
    let envelope = Envelope::request("test::Ping", ping.encode_to_vec(), 1, "node", "actor");

    let deserialized =
        deserialize_payload(&registry, &envelope.message_type, &envelope.payload).unwrap();
    let downcasted = deserialized.unwrap();

    assert_eq!(downcasted.message, "Hello, Registry!");
}

#[test]
fn registry_reports_empty_and_unknown() {
    let mut registry: TypeRegistry<fn(&[u8]) -> Option<Ping>> = TypeRegistry::new();
    assert_eq!(
        registry.decoder_for("test::Ping").err(),
        Some(RegistryError::NoMessagesRegistered)
    );
    assert_eq!(
        deserialize_payload(&registry, "test::Ping", &[]).err(),
        Some(RegistryError::NoMessagesRegistered)
    );
    registry.register("test::Ping", decode_ping);
    assert!(registry.decoder_for("test::Ping").is_ok());
    assert_eq!(
        registry.decoder_for("test::Pong").err(),
        Some(RegistryError::UnknownMessageType)
    );
    assert_eq!(
        deserialize_payload(&registry, "test::Pong", &[]).err(),
        Some(RegistryError::UnknownMessageType)
    );
}

#[test]
fn registry_hands_malformed_payload_to_decoder() {
    let mut registry: TypeRegistry<fn(&[u8]) -> Option<Ping>> = TypeRegistry::new();
    registry.register("test::Ping", decode_ping);
    // Field 1 announces five bytes and brings one.
    let decoded = deserialize_payload(&registry, "test::Ping", &[0x0a, 0x05, b'x']);
    assert_eq!(decoded, Ok(None));
}

#[test]
fn registry_later_registration_replaces() {
    fn first(_: &[u8]) -> Option<u8> {
        Some(1)
    }
    fn second(_: &[u8]) -> Option<u8> {
        Some(2)
    }
    let mut registry: TypeRegistry<fn(&[u8]) -> Option<u8>> = TypeRegistry::new();
    registry.register("a", first);
    registry.register("b", first);
    registry.register("a", second);
    assert_eq!(deserialize_payload(&registry, "a", &[]), Ok(Some(2)));
    assert_eq!(deserialize_payload(&registry, "b", &[]), Ok(Some(1)));
}

#[test]
fn frame_is_length_prefixed_big_endian() {
    let mut codec = EnvelopeCodec;
    let mut stream = BytesMut::new();
    let payload = vec![7u8; 258];
    assert_eq!(codec.encode_frame(&payload, &mut stream), Ok(()));
    assert_eq!(stream.len(), 262);
    assert_eq!(&stream[..4], &[0, 0, 1, 2]);
    assert_eq!(&stream[4..], &payload[..]);
}

#[test]
fn frame_of_empty_payload() {
    let mut codec = EnvelopeCodec;
    let mut stream = BytesMut::new();
    assert_eq!(codec.encode_frame(&[], &mut stream), Ok(()));
    assert_eq!(&stream[..], &[0, 0, 0, 0]);
    assert_eq!(codec.decode_frame(&mut stream), Some(vec![]));
    assert!(stream.is_empty());
    assert_eq!(codec.decode_frame(&mut stream), None);
}

#[test]
fn decode_waits_for_whole_frame() {
    let mut codec = EnvelopeCodec;
    let mut stream = BytesMut::new();
    stream.extend_from_slice(&[0, 0]);
    assert_eq!(codec.decode_frame(&mut stream), None);
    assert_eq!(&stream[..], &[0, 0]);
    stream.extend_from_slice(&[0, 3, b'a', b'b']);
    assert_eq!(codec.decode_frame(&mut stream), None);
    assert_eq!(&stream[..], &[0, 0, 0, 3, b'a', b'b']);
    stream.extend_from_slice(&[b'c']);
    assert_eq!(codec.decode_frame(&mut stream), Some(vec![b'a', b'b', b'c']));
    assert!(stream.is_empty());
}

#[test]
fn decode_takes_frames_in_order() {
    let mut codec = EnvelopeCodec;
    let mut stream = BytesMut::new();
    assert_eq!(codec.encode_frame(b"first", &mut stream), Ok(()));
    assert_eq!(codec.encode_frame(b"second!", &mut stream), Ok(()));
    stream.extend_from_slice(&[0, 0, 0]);
    assert_eq!(codec.decode_frame(&mut stream), Some(b"first".to_vec()));
    assert_eq!(codec.decode_frame(&mut stream), Some(b"second!".to_vec()));
    assert_eq!(codec.decode_frame(&mut stream), None);
    assert_eq!(&stream[..], &[0, 0, 0]);
}

#[test]
fn decode_reads_all_four_prefix_bytes() {
    let mut codec = EnvelopeCodec;
    let mut stream = BytesMut::new();
    stream.extend_from_slice(&[0x01, 0x00, 0x00, 0x00, 9, 9, 9]);
    assert_eq!(codec.decode_frame(&mut stream), None);
    assert_eq!(stream.len(), 7);
    let mut second = BytesMut::new();
    second.extend_from_slice(&[0x00, 0x00, 0x01, 0x00]);
    second.extend_from_slice(&[5u8; 256]);
    assert_eq!(codec.decode_frame(&mut second), Some(vec![5u8; 256]));
}

#[test]
fn response_goes_back_to_sender() {
    let request = Envelope::request("calc::Add", vec![1, 2], 77, "node-a", "adder");
    let reply = request.response("calc::Sum", vec![3], "node-b");
    assert_eq!(reply.message_type, "calc::Sum");
    assert_eq!(reply.payload, vec![3]);
    assert_eq!(reply.correlation_id, 77);
    assert_eq!(reply.sender_node, "node-b");
    assert_eq!(reply.target_actor, "node-a");
    assert!(reply.is_response);
}

#[test]
fn router_picks_route_then_fallback() {
    let router: MessageRouter<u32> = MessageRouter::new()
        .route::<Ping>(1)
        .route_type("test::Other", 2)
        .default(9);
    let ping = Envelope::request("test::Ping", vec![], 0, "n", "a");
    let other = Envelope::request("test::Other", vec![], 0, "n", "a");
    let unknown = Envelope::request("test::Unknown", vec![], 0, "n", "a");
    assert_eq!(router.build(&ping), Some(&1));
    assert_eq!(router.build(&other), Some(&2));
    assert_eq!(router.build(&unknown), Some(&9));
}

#[test]
fn router_without_fallback_drops_unknown() {
    let router: MessageRouter<u32> = MessageRouter::new().route::<Pong>(4);
    let pong = Envelope::request("test::Pong", vec![], 0, "n", "a");
    let ping = Envelope::request("test::Ping", vec![], 0, "n", "a");
    assert_eq!(router.build(&pong), Some(&4));
    assert_eq!(router.build(&ping), None);
    let empty: MessageRouter<u32> = MessageRouter::new();
    assert_eq!(empty.build(&pong), None);
}

#[test]
fn router_last_route_wins() {
    let router: MessageRouter<&str> = MessageRouter::new()
        .route_type("t", "old")
        .route_type("u", "kept")
        .route_type("t", "new");
    let t = Envelope::request("t", vec![], 0, "n", "a");
    let u = Envelope::request("u", vec![], 0, "n", "a");
    assert_eq!(router.build(&t), Some(&"new"));
    assert_eq!(router.build(&u), Some(&"kept"));
}

#[test]
fn status_codes() {
    assert_eq!(NodeStatus::Up.code(), 0);
    assert_eq!(NodeStatus::Suspect.code(), 1);
    assert_eq!(NodeStatus::Down.code(), 2);
    assert_eq!(NodeStatus::from_code(0), NodeStatus::Up);
    assert_eq!(NodeStatus::from_code(1), NodeStatus::Suspect);
    assert_eq!(NodeStatus::from_code(2), NodeStatus::Down);
    assert_eq!(NodeStatus::from_code(3), NodeStatus::Down);
    assert_eq!(NodeStatus::from_code(-1), NodeStatus::Down);
    assert_eq!(NodeStatus::from_code(i32::MAX), NodeStatus::Down);
}

#[test]
fn node_and_record_convert() {
    let node = Node {
        id: "n1".to_string(),
        addr: "10.0.0.1:7000".to_string(),
        status: NodeStatus::Suspect,
    };
    let info = NodeInfo::from(&node);
    assert_eq!(info.id, "n1");
    assert_eq!(info.addr, "10.0.0.1:7000");
    assert_eq!(info.status, 1);
    let back = Node::from(info);
    assert_eq!(back.id, "n1");
    assert_eq!(back.addr, "10.0.0.1:7000");
    assert_eq!(back.status, NodeStatus::Suspect);
    let unknown = Node::from(NodeInfo {
        id: "n2".to_string(),
        addr: "x".to_string(),
        status: 17,
    });
    assert_eq!(unknown.status, NodeStatus::Down);
}

#[test]
fn cluster_starts_with_local_node() {
    let cluster = ClusterNode::new("a".to_string(), "127.0.0.1:1".to_string());
    assert_eq!(cluster.local_node.id, "a");
    assert_eq!(cluster.local_node.addr, "127.0.0.1:1");
    assert_eq!(cluster.local_node.status, NodeStatus::Up);
    let members = cluster.get_members();
    assert_eq!(members.len(), 1);
    assert_eq!(members[0].id, "a");
    assert_eq!(members[0].status, NodeStatus::Up);
}

#[test]
fn cluster_adds_and_updates_members() {
    let mut cluster = ClusterNode::new("a".to_string(), "127.0.0.1:1".to_string());
    cluster.add_member(Node {
        id: "b".to_string(),
        addr: "127.0.0.1:2".to_string(),
        status: NodeStatus::Up,
    });
    cluster.add_member(Node {
        id: "b".to_string(),
        addr: "127.0.0.1:2".to_string(),
        status: NodeStatus::Down,
    });
    cluster.add_member(Node {
        id: "a".to_string(),
        addr: "127.0.0.1:9".to_string(),
        status: NodeStatus::Suspect,
    });
    let members = cluster.get_members();
    assert_eq!(members.len(), 2);
    assert_eq!(members[0].id, "a");
    assert_eq!(members[0].addr, "127.0.0.1:9");
    assert_eq!(members[0].status, NodeStatus::Suspect);
    assert_eq!(members[1].id, "b");
    assert_eq!(members[1].status, NodeStatus::Down);
    assert_eq!(cluster.local_node.addr, "127.0.0.1:1");
}

#[test]
fn remote_addr_holds_its_parts() {
    let addr: RemoteAddr<Ping> = RemoteAddr::new("node-1", "greeter", "10.0.0.1:9000");
    assert_eq!(addr.id.node.0, "node-1");
    assert_eq!(addr.id.actor_name, "greeter");
    assert_eq!(addr.node_addr, "10.0.0.1:9000");
}
