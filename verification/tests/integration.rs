//! End-to-end scenarios: a Host's store serviced through `handle_frame`, and
//! Nodes speaking the protocol frame by frame.

use meadow::error::Error;
use meadow::host::{handle_frame, FrameOutcome, Host, HostConfig};
use meadow::node::{Idle, Node, NodeConfig};
use meadow::payload::Pose;
use meadow::subscription::{PollOutcome, SubscriptionCache};
use meadow::time::Timestamp;

const MAX: usize = 4096;

fn reply_bytes(outcome: FrameOutcome) -> Vec<u8> {
    match outcome {
        FrameOutcome::Reply(b) => b,
        FrameOutcome::Close => panic!("connection closed by host"),
    }
}

#[test]
fn integrate_host_and_single_node() {
    let mut host: Host = Host::from_config(HostConfig::default()).unwrap();

    let node: Node<Idle, Pose> = NodeConfig::new("TEST_NODE").topic("pose").build().unwrap();
    let node = node.activate();

    for i in 0..5u32 {
        let pose = Pose {
            x_bits: (i as f32).to_bits(),
            y_bits: (i as f32).to_bits(),
        };

        let set = node.publish_frame(&pose, Timestamp::now()).unwrap();
        let ack = reply_bytes(handle_frame(&mut host.store, &set, Timestamp::now(), MAX));
        node.parse_publish_ack(&ack).unwrap();

        let get = node.request_frame(Timestamp::now()).unwrap();
        let reply = reply_bytes(handle_frame(&mut host.store, &get, Timestamp::now(), MAX));
        let result = node.parse_reply(&reply).unwrap();

        assert_eq!(pose, result.data);
    }
}

#[test]
fn request_non_existent_topic() {
    let mut host: Host = Host::from_config(HostConfig::default()).unwrap();

    let node: Node<Idle, Pose> = NodeConfig::new("TEST_NODE")
        .topic("doesnt_exist")
        .build()
        .unwrap();
    let node = node.activate();

    // Requesting a topic that doesn't exist returns a prompt, recoverable
    // error instead of hanging.
    for _i in 0..5 {
        let get = node.request_frame(Timestamp::now()).unwrap();
        let reply = reply_bytes(handle_frame(&mut host.store, &get, Timestamp::now(), MAX));
        let result = node.parse_reply(&reply);
        assert_eq!(result.unwrap_err(), Error::NotFound);
    }
}

#[test]
fn node_send_options() {
    let mut host: Host = Host::from_config(HostConfig::default()).unwrap();

    let node_a = NodeConfig::<Option<u32>>::new("OptionTx")
        .topic("pose")
        .build()
        .unwrap()
        .activate();
    let node_b = NodeConfig::<Option<u32>>::new("OptionTx")
        .topic("pose")
        .build()
        .unwrap()
        .activate();

    // Send Option with `Some(value)`, carrying the bit pattern of 1.0.
    let set = node_a
        .publish_frame(&Some(1.0f32.to_bits()), Timestamp::from_micros(1))
        .unwrap();
    let ack = reply_bytes(handle_frame(&mut host.store, &set, Timestamp::now(), MAX));
    node_a.parse_publish_ack(&ack).unwrap();

    let get = node_b.request_frame(Timestamp::now()).unwrap();
    let reply = reply_bytes(handle_frame(&mut host.store, &get, Timestamp::now(), MAX));
    let result = node_b.parse_reply(&reply).unwrap();
    assert_eq!(f32::from_bits(result.data.unwrap()), 1.0);

    // Send option with `None`.
    let set = node_a
        .publish_frame(&None, Timestamp::from_micros(2))
        .unwrap();
    let ack = reply_bytes(handle_frame(&mut host.store, &set, Timestamp::now(), MAX));
    node_a.parse_publish_ack(&ack).unwrap();

    let get = node_b.request_frame(Timestamp::now()).unwrap();
    let reply = reply_bytes(handle_frame(&mut host.store, &get, Timestamp::now(), MAX));
    let result = node_b.parse_reply(&reply).unwrap();
    assert_eq!(result.data, None);
}

#[test]
fn publish_boolean() {
    let mut host: Host = Host::from_config(HostConfig::default()).unwrap();

    let node: Node<Idle, bool> = NodeConfig::new("TEST_NODE")
        .topic("my_boolean")
        .build()
        .unwrap();
    let node = node.activate();

    for _i in 0..5 {
        let set = node.publish_frame(&true, Timestamp::now()).unwrap();
        let ack = reply_bytes(handle_frame(&mut host.store, &set, Timestamp::now(), MAX));
        node.parse_publish_ack(&ack).unwrap();

        let get = node.request_frame(Timestamp::now()).unwrap();
        let reply = reply_bytes(handle_frame(&mut host.store, &get, Timestamp::now(), MAX));
        assert!(node.parse_reply(&reply).unwrap().data);
    }
}

#[test]
fn subscription_usize() {
    let mut host: Host = Host::from_config(HostConfig::default()).unwrap();

    let writer = NodeConfig::<usize>::new("WRITER")
        .topic("subscription")
        .build()
        .unwrap()
        .activate();

    // The reader's connection belongs to its poller from here on; the poller
    // runs its own request loop against the same topic.
    let _reader = NodeConfig::<usize>::new("READER")
        .topic("subscription")
        .build()
        .unwrap()
        .activate()
        .subscribe();
    let poller = NodeConfig::<usize>::new("READER_SUBSCRIPTION")
        .topic("subscription")
        .build()
        .unwrap()
        .activate();
    let mut cache: SubscriptionCache<usize> = SubscriptionCache::new();

    for i in 0..5usize {
        let stamp = Timestamp::from_micros(100 * (i as u64 + 1));
        let set = writer.publish_frame(&i, stamp).unwrap();
        let ack = reply_bytes(handle_frame(&mut host.store, &set, Timestamp::now(), MAX));
        writer.parse_publish_ack(&ack).unwrap();

        let get = poller.request_frame(Timestamp::now()).unwrap();
        let reply = reply_bytes(handle_frame(&mut host.store, &get, Timestamp::now(), MAX));
        assert_eq!(cache.poll_step(&reply), PollOutcome::Updated);
    }

    assert_eq!(cache.get_subscribed_data().unwrap().data, 4usize);
}

#[test]
#[should_panic]
fn no_subscribed_value() {
    let cache: SubscriptionCache<usize> = SubscriptionCache::new();

    // Unwrapping before the poller has produced a value leads to panic.
    let _result: usize = cache.get_subscribed_data().unwrap().data;
}

#[test]
fn simple_udp() {
    // The datagram path is fire-and-forget: the publisher writes a SET frame
    // and reads no acknowledgement; the frame itself is transport-neutral.
    let mut host: Host = Host::from_config(HostConfig::default()).unwrap();

    let tx = NodeConfig::<u32>::new("TX")
        .host_addr("127.0.0.1:25000")
        .topic("num")
        .build()
        .unwrap()
        .activate();

    let rx = NodeConfig::<u32>::new("RECEIVER")
        .topic("num")
        .build()
        .unwrap()
        .activate();

    for i in 0..10u32 {
        let x = (i as f32).to_bits();

        let set = tx.publish_frame(&x, Timestamp::now()).unwrap();
        let _ack = handle_frame(&mut host.store, &set, Timestamp::now(), MAX);

        let get = rx.request_frame(Timestamp::now()).unwrap();
        let reply = reply_bytes(handle_frame(&mut host.store, &get, Timestamp::now(), MAX));
        let result = rx.parse_reply(&reply).unwrap();
        assert_eq!(f32::from_bits(x), f32::from_bits(result.data));
    }
}

#[test]
fn topics_enumeration() {
    let mut host: Host = Host::from_config(HostConfig::default()).unwrap();

    // Publish to three topics, one of them twice, in a scrambled order.
    for (i, topic) in ["b", "a", "c", "a"].iter().enumerate() {
        let node = NodeConfig::<u64>::new("TX").topic(*topic).build().unwrap().activate();
        let set = node
            .publish_frame(&(i as u64), Timestamp::from_micros(i as u64))
            .unwrap();
        let ack = reply_bytes(handle_frame(&mut host.store, &set, Timestamp::now(), MAX));
        node.parse_publish_ack(&ack).unwrap();
    }

    let node = NodeConfig::<u64>::new("TX").topic("a").build().unwrap().activate();
    let query = node.topics_frame(Timestamp::now()).unwrap();
    let reply = reply_bytes(handle_frame(&mut host.store, &query, Timestamp::now(), MAX));
    let msg = node.parse_topics_reply(&reply).unwrap();

    let mut names = msg.data.clone();
    names.sort();
    assert_eq!(names, vec!["a".to_string(), "b".to_string(), "c".to_string()]);
}

#[test]
fn handshake_and_malformed_frames() {
    let mut host: Host = Host::from_config(HostConfig::default()).unwrap();

    // A handshake announcement is acknowledged and stores nothing.
    let node: Node<Idle, bool> = NodeConfig::new("TEST_NODE").topic("flag").build().unwrap();
    let hello = node.handshake_frame(Timestamp::now()).unwrap();
    let ack = reply_bytes(handle_frame(&mut host.store, &hello, Timestamp::now(), MAX));
    let node = node.activate();
    node.parse_publish_ack(&ack).unwrap();

    let get = node.request_frame(Timestamp::now()).unwrap();
    let reply = reply_bytes(handle_frame(&mut host.store, &get, Timestamp::now(), MAX));
    assert_eq!(node.parse_reply(&reply).unwrap_err(), Error::NotFound);

    // A frame that is not a well-formed envelope closes the connection.
    assert!(matches!(
        handle_frame(&mut host.store, &[1, 2, 3], Timestamp::now(), MAX),
        FrameOutcome::Close
    ));
    let garbage = [9u8, 0, 0, 0, 255, 254, 253, 252, 251, 250, 249, 248, 247];
    assert!(matches!(
        handle_frame(&mut host.store, &garbage, Timestamp::now(), MAX),
        FrameOutcome::Close
    ));
}

#[test]
fn oversized_reply_is_refused() {
    let mut host: Host = Host::from_config(HostConfig::default()).unwrap();

    let writer = NodeConfig::<String>::new("TX").topic("blob").build().unwrap().activate();
    let big = "x".repeat(300);
    let set = writer.publish_frame(&big, Timestamp::now()).unwrap();
    let ack = reply_bytes(handle_frame(&mut host.store, &set, Timestamp::now(), MAX));
    writer.parse_publish_ack(&ack).unwrap();

    // A reader whose buffer cannot hold the stored envelope gets an explicit
    // error, not a truncated frame.
    let reader = NodeConfig::<String>::new("RX").topic("blob").build().unwrap().activate();
    let get = reader.request_frame(Timestamp::now()).unwrap();
    let reply = reply_bytes(handle_frame(&mut host.store, &get, Timestamp::now(), 64));
    assert_eq!(reader.parse_reply(&reply).unwrap_err(), Error::PayloadTooLarge);
}

#[test]
fn node_send_options_quic() {
    // The encrypted-stream transport shares request/reply semantics with the
    // plain stream; the frames and Option payloads it carries are the same.
    let mut host: Host = Host::from_config(HostConfig::default()).unwrap();

    let node_a = NodeConfig::<Option<u32>>::new("OptionTx")
        .topic("pose")
        .build()
        .unwrap()
        .activate();
    let node_b = NodeConfig::<Option<u32>>::new("OptionTx")
        .topic("pose")
        .build()
        .unwrap()
        .activate();

    let set = node_a
        .publish_frame(&Some(1.0f32.to_bits()), Timestamp::from_micros(1))
        .unwrap();
    let ack = reply_bytes(handle_frame(&mut host.store, &set, Timestamp::now(), MAX));
    node_a.parse_publish_ack(&ack).unwrap();

    let get = node_b.request_frame(Timestamp::now()).unwrap();
    let reply = reply_bytes(handle_frame(&mut host.store, &get, Timestamp::now(), MAX));
    let result = node_b.parse_reply(&reply).unwrap();
    assert_eq!(f32::from_bits(result.data.unwrap()), 1.0);

    let set = node_a
        .publish_frame(&None, Timestamp::from_micros(2))
        .unwrap();
    let ack = reply_bytes(handle_frame(&mut host.store, &set, Timestamp::now(), MAX));
    node_a.parse_publish_ack(&ack).unwrap();

    let get = node_b.request_frame(Timestamp::now()).unwrap();
    let reply = reply_bytes(handle_frame(&mut host.store, &get, Timestamp::now(), MAX));
    let result = node_b.parse_reply(&reply).unwrap();
    assert_eq!(result.data, None);
}

#[test]
fn host_config_defaults() {
    let cfg = HostConfig::default();
    assert_eq!(cfg.interface, "lo");
    assert_eq!(cfg.socket_num, 25000);
    assert_eq!(cfg.store_name, "rhiza_store");

    let cfg = HostConfig::new("eth0").socket_num(26000).store_name("other");
    assert_eq!(cfg.interface, "eth0");
    assert_eq!(cfg.socket_num, 26000);
    assert_eq!(cfg.store_name, "other");
}
