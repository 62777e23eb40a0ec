//! The wire forms themselves: exact bytes, round trips, error cases, and the
//! staleness policy on concrete values.

use meadow::error::Error;
use meadow::framing::{frame_bytes, unframe_bytes};
use meadow::msg::{
    decode_ack, decode_envelope, encode_ack, encode_envelope, GenericMsg, Msg, MsgType,
};
use meadow::payload::{Message, Pose};
use meadow::subscription::SubscriptionCache;
use meadow::time::Timestamp;

fn envelope(kind: MsgType, stamp: u64, topic: &str, tag: &str, data: Vec<u8>) -> GenericMsg {
    GenericMsg {
        msg_type: kind,
        timestamp: Timestamp::from_micros(stamp),
        topic: topic.to_string(),
        data_type: tag.to_string(),
        data,
    }
}

#[test]
fn envelope_exact_bytes() {
    let m = envelope(MsgType::SET, 1, "a", "b", vec![7]);
    let bytes = encode_envelope(&m).unwrap();
    let expected: Vec<u8> = vec![
        0, // SET
        1, 0, 0, 0, 0, 0, 0, 0, // timestamp
        1, 0, 0, 0, 97, // topic "a"
        1, 0, 0, 0, 98, // type tag "b"
        1, 0, 0, 0, 7, // payload
    ];
    assert_eq!(bytes, expected);
}

#[test]
fn envelope_round_trip() {
    let m = envelope(MsgType::GET, 123_456_789, "pose/α", "Pose", vec![1, 2, 3, 250]);
    let bytes = encode_envelope(&m).unwrap();
    let back = decode_envelope(&bytes).unwrap();
    assert_eq!(back.msg_type, m.msg_type);
    assert_eq!(back.timestamp, m.timestamp);
    assert_eq!(back.topic, m.topic);
    assert_eq!(back.data_type, m.data_type);
    assert_eq!(back.data, m.data);
    // The byte form is canonical: re-encoding the decoded envelope
    // reproduces the original bytes exactly.
    assert_eq!(encode_envelope(&back).unwrap(), bytes);
}

#[test]
fn envelope_decode_rejects_malformed() {
    assert_eq!(decode_envelope(&[]).unwrap_err(), Error::Deserialization);
    // Unknown kind code.
    let m = envelope(MsgType::SET, 0, "t", "u", vec![]);
    let mut bytes = encode_envelope(&m).unwrap();
    bytes[0] = 9;
    assert_eq!(decode_envelope(&bytes).unwrap_err(), Error::Deserialization);
    // Trailing garbage after a well-formed envelope.
    let mut bytes = encode_envelope(&m).unwrap();
    bytes.push(0);
    assert_eq!(decode_envelope(&bytes).unwrap_err(), Error::Deserialization);
    // Topic bytes that are not UTF-8.
    let mut bytes = encode_envelope(&m).unwrap();
    bytes[13] = 0xFF;
    assert_eq!(decode_envelope(&bytes).unwrap_err(), Error::Deserialization);
}

#[test]
fn ack_codec() {
    assert_eq!(encode_ack(Ok(())), vec![0]);
    assert_eq!(encode_ack(Err(Error::NotFound)), vec![7]);
    assert_eq!(decode_ack(&[0]), Some(Ok(())));
    assert_eq!(decode_ack(&[7]), Some(Err(Error::NotFound)));
    assert_eq!(decode_ack(&[200]), None);
    assert_eq!(decode_ack(&[0, 0]), None);
    for e in [
        Error::StreamConnection,
        Error::Handshake,
        Error::AccessSocket,
        Error::AccessStream,
        Error::Serialization,
        Error::Deserialization,
        Error::NotFound,
        Error::PayloadTooLarge,
        Error::NoSubscriptionValue,
        Error::HandleAccess,
        Error::StoreAccess,
    ] {
        assert_eq!(decode_ack(&encode_ack(Err(e))), Some(Err(e)));
        assert_eq!(Error::from_code(e.code()), Some(e));
    }
}

#[test]
fn frame_layer() {
    let framed = frame_bytes(&[1, 2, 3], 100).unwrap();
    assert_eq!(framed, vec![3, 0, 0, 0, 1, 2, 3]);
    assert_eq!(unframe_bytes(&framed).unwrap(), vec![1, 2, 3]);
    // A body that does not fit the buffer is refused outright.
    assert_eq!(frame_bytes(&[0; 97], 100).unwrap_err(), Error::PayloadTooLarge);
    // A buffer holding more than one frame is not one frame.
    let mut two = framed.clone();
    two.extend_from_slice(&framed);
    assert_eq!(unframe_bytes(&two).unwrap_err(), Error::Deserialization);
    // A truncated frame is not a frame.
    assert_eq!(unframe_bytes(&framed[..5]).unwrap_err(), Error::Deserialization);
}

#[test]
fn payload_round_trips() {
    assert_eq!(bool::decode(&true.encode().unwrap()).unwrap(), true);
    assert_eq!(bool::decode(&false.encode().unwrap()).unwrap(), false);
    assert!(bool::decode(&[2]).is_err());
    assert_eq!(u32::decode(&7u32.encode().unwrap()).unwrap(), 7);
    assert_eq!(u64::decode(&u64::MAX.encode().unwrap()).unwrap(), u64::MAX);
    assert_eq!(usize::decode(&41usize.encode().unwrap()).unwrap(), 41);
    assert_eq!(<()>::decode(&().encode().unwrap()).unwrap(), ());
    assert!(<()>::decode(&[1]).is_err());
    let s = "héllo wörld".to_string();
    assert_eq!(String::decode(&s.encode().unwrap()).unwrap(), s);
    assert!(String::decode(&[0xFF, 0xFE]).is_err());
    let p = Pose { x_bits: 1.5f32.to_bits(), y_bits: 2.5f32.to_bits() };
    assert_eq!(Pose::decode(&p.encode().unwrap()).unwrap(), p);
    let o: Option<u64> = Some(99);
    assert_eq!(Option::<u64>::decode(&o.encode().unwrap()).unwrap(), o);
    let n: Option<u64> = None;
    assert_eq!(Option::<u64>::decode(&n.encode().unwrap()).unwrap(), n);
    let l = vec!["".to_string(), "a".to_string(), "päö".to_string()];
    assert_eq!(Vec::<String>::decode(&l.encode().unwrap()).unwrap(), l);
    let empty: Vec<String> = vec![];
    assert_eq!(Vec::<String>::decode(&empty.encode().unwrap()).unwrap(), empty);
    // Re-encode direction on payloads: decode-then-encode reproduces bytes.
    let lb = l.encode().unwrap();
    assert_eq!(Vec::<String>::decode(&lb).unwrap().encode().unwrap(), lb);
    let ob = Some(31u64).encode().unwrap();
    assert_eq!(Option::<u64>::decode(&ob).unwrap().encode().unwrap(), ob);
}

#[test]
fn typed_round_trip_and_tag_validation() {
    let msg = Msg::new(MsgType::SET, "flag", true, Timestamp::from_micros(5));
    let generic = msg.to_generic().unwrap();
    let back = generic.to_typed::<bool>().unwrap();
    assert_eq!(back.data, true);
    assert_eq!(back.topic, "flag");
    assert_eq!(back.timestamp, Timestamp::from_micros(5));
    assert_eq!(back.data_type, bool::type_tag());

    // Re-encode direction: the typed message serializes back into the very
    // envelope it came from, payload bytes included.
    let re = back.to_generic().unwrap();
    assert_eq!(re.msg_type, generic.msg_type);
    assert_eq!(re.timestamp, generic.timestamp);
    assert_eq!(re.topic, generic.topic);
    assert_eq!(re.data_type, generic.data_type);
    assert_eq!(re.data, generic.data);

    // The type tag is a discriminant: a mismatching target type is refused
    // before its decoder ever runs.
    assert_eq!(generic.to_typed::<u64>().unwrap_err(), Error::Deserialization);
}

#[test]
fn msg_setters() {
    let mut msg = Msg::new(MsgType::SET, "one", 7u64, Timestamp::from_micros(1));
    msg.set_topic("two");
    msg.set_timestamp(Timestamp::from_micros(9));
    msg.set_data(8);
    assert_eq!(msg.topic, "two");
    assert_eq!(msg.timestamp, Timestamp::from_micros(9));
    assert_eq!(msg.data, 8);
}

#[test]
fn staleness_policy() {
    let mut cache: SubscriptionCache<u64> = SubscriptionCache::new();
    let newer = Msg::new(MsgType::GET, "t", 1u64, Timestamp::from_micros(100));
    let equal = Msg::new(MsgType::GET, "t", 2u64, Timestamp::from_micros(100));
    let older = Msg::new(MsgType::GET, "t", 3u64, Timestamp::from_micros(50));
    let newest = Msg::new(MsgType::GET, "t", 4u64, Timestamp::from_micros(101));

    assert!(cache.apply_reply(newer));
    assert_eq!(cache.get_subscribed_data().unwrap().data, 1);
    // A reply whose timestamp is not strictly newer never overwrites.
    assert!(!cache.apply_reply(equal));
    assert_eq!(cache.get_subscribed_data().unwrap().data, 1);
    assert!(!cache.apply_reply(older));
    assert_eq!(cache.get_subscribed_data().unwrap().data, 1);
    assert!(cache.apply_reply(newest));
    assert_eq!(cache.get_subscribed_data().unwrap().data, 4);
}

#[test]
fn timestamps() {
    assert_eq!(Timestamp::epoch(), Timestamp::from_micros(0));
    assert!(Timestamp::from_micros(2).is_newer_than(&Timestamp::from_micros(1)));
    assert!(!Timestamp::from_micros(1).is_newer_than(&Timestamp::from_micros(1)));
    // The clock moves forward from the epoch.
    assert!(Timestamp::now().is_newer_than(&Timestamp::epoch()));
}

#[test]
fn envelope_constructors() {
    let set = GenericMsg::set::<bool>("t", vec![1], Timestamp::from_micros(3));
    assert_eq!(set.msg_type, MsgType::SET);
    assert_eq!(set.topic, "t");
    assert_eq!(set.data_type, bool::type_tag());
    assert_eq!(set.data, vec![1]);
    assert_eq!(set.timestamp, Timestamp::from_micros(3));

    let get = GenericMsg::get::<bool>("t", Timestamp::from_micros(4));
    assert_eq!(get.msg_type, MsgType::GET);
    assert!(get.data.is_empty());

    let topics = GenericMsg::topics(Timestamp::from_micros(5));
    assert_eq!(topics.msg_type, MsgType::TOPICS);
    assert_eq!(topics.topic, "");
    assert!(topics.data.is_empty());

    assert_eq!(Error::NotFound.describe(), "no value published on this topic");
}
