use bevy_octopus::channels::{
    send_channel_packet, ChannelId, ChannelPacket, ChannelReceivedMessage, ChannelSendMessage,
    ReceiveChannelMessage, SendChannelMessage,
};
use bevy_octopus::client::client_reconnect;
use bevy_octopus::error::NetworkError;
use bevy_octopus::event::{NetworkSet, ServerEvent};
use bevy_octopus::network_node::{
    NetworkEvent, NetworkNode, NetworkRawPacket, NetworkSetting, PeerAddr, StopMarker,
};
use bevy_octopus::shared::ConnectionId;
use bevy_octopus::transformer::{
    encoded_packet, encoder_accepts, partition_results, received_messages, ChannelRegistry,
};
use bevy_octopus::transports::{
    datagram_packet, read_packet, url_address, ws_frame, SendAttempts, SendDecision, SendOutcome,
    WsFrame,
};
use std::any::TypeId;

const TCP_CHANNEL: ChannelId = ChannelId("tcp");
const UDP_CHANNEL: ChannelId = ChannelId("udp");

fn local(port: u16) -> PeerAddr {
    PeerAddr::V4 { ipv4: 0x7f00_0001, port }
}

#[test]
fn channel_ids_compare_by_name() {
    assert!(TCP_CHANNEL == ChannelId("tcp"));
    assert!(TCP_CHANNEL != UDP_CHANNEL);
    assert_eq!(ChannelId::default(), ChannelId(""));
}

#[test]
fn channel_id_display_text() {
    assert_eq!(TCP_CHANNEL.to_display_string(), "Channel(tcp)");
    assert_eq!(ChannelId("").to_display_string(), "Channel()");
}

#[test]
fn channel_messages_keep_channel_and_message() {
    let m = SendChannelMessage::new(TCP_CHANNEL, 7u32);
    assert_eq!(m.channel_id, TCP_CHANNEL);
    assert_eq!(m.message, 7);
    let m = ReceiveChannelMessage::new(UDP_CHANNEL, "hi");
    assert_eq!(m.channel_id, UDP_CHANNEL);
    assert_eq!(m.message, "hi");
    let m = ChannelSendMessage::new(TCP_CHANNEL, vec![1u8, 2]);
    assert_eq!(m.channel_id, TCP_CHANNEL);
    assert_eq!(m.message, vec![1, 2]);
    let m = ChannelReceivedMessage::new(UDP_CHANNEL, (1, 2));
    assert_eq!(m.channel_id, UDP_CHANNEL);
    assert_eq!(m.message, (1, 2));
}

#[test]
fn channel_packet_copies_bytes() {
    let p = ChannelPacket::new(UDP_CHANNEL, &[1, 2, 3]);
    assert_eq!(p.channel_id, UDP_CHANNEL);
    assert_eq!(&p.bytes[..], &[1, 2, 3]);
    assert!(p.text.is_none());
    let raw = p.to_raw_packet();
    assert!(raw.addr.is_none());
    assert_eq!(&raw.bytes[..], &[1, 2, 3]);
    assert!(raw.text.is_none());
}

#[test]
fn channel_packet_reaches_exactly_its_channel() {
    let a = NetworkNode::default();
    let b = NetworkNode::default();
    let c = NetworkNode::default();
    let nodes = vec![(TCP_CHANNEL, &a), (UDP_CHANNEL, &b), (TCP_CHANNEL, &c)];
    let packet = ChannelPacket::new(TCP_CHANNEL, b"ping");
    let sent = send_channel_packet(&packet, &nodes);
    assert_eq!(sent, vec![0, 2]);
    let got = a.send_message_channel.receiver.try_recv().unwrap().unwrap();
    assert_eq!(&got.bytes[..], b"ping");
    assert!(got.addr.is_none());
    assert!(b.send_message_channel.receiver.try_recv().unwrap().is_none());
    assert!(c.send_message_channel.receiver.try_recv().unwrap().is_some());
    let none = ChannelPacket::new(ChannelId("ws"), b"x");
    assert!(send_channel_packet(&none, &nodes).is_empty());
}

#[test]
fn raw_packet_constructors() {
    let p = NetworkRawPacket::binary(&[9, 8], Some(local(4000)));
    assert_eq!(p.addr, Some(local(4000)));
    assert_eq!(&p.bytes[..], &[9, 8]);
    assert!(p.text.is_none());
    let t = NetworkRawPacket::text("hello".to_string(), None);
    assert!(t.addr.is_none());
    assert!(t.bytes.is_empty());
    assert_eq!(t.text.as_deref(), Some("hello"));
    let c = p.clone();
    assert_eq!(c.addr, Some(local(4000)));
    assert_eq!(&c.bytes[..], &[9, 8]);
    assert!(c.text.is_none());
}

#[test]
fn node_sends_land_in_send_queue() {
    let node = NetworkNode::default();
    assert!(!node.running);
    node.send_bytes(&[1]);
    node.send_bytes_to(&[2], local(1));
    node.send_text_to("t".to_string(), local(2));
    let p1 = node.send_message_channel.receiver.try_recv().unwrap().unwrap();
    assert_eq!(&p1.bytes[..], &[1]);
    assert!(p1.addr.is_none());
    let p2 = node.send_message_channel.receiver.try_recv().unwrap().unwrap();
    assert_eq!(p2.addr, Some(local(1)));
    let p3 = node.send_message_channel.receiver.try_recv().unwrap().unwrap();
    assert_eq!(p3.text.as_deref(), Some("t"));
    assert_eq!(p3.addr, Some(local(2)));
}

#[test]
fn node_start_and_stop() {
    let mut node = NetworkNode::default();
    node.start();
    assert!(node.running);
    node.stop();
    assert!(!node.running);
}

#[test]
fn node_events_drive_running_flag() {
    let mut node = NetworkNode::default();
    node.apply_event(&NetworkEvent::Listen);
    assert!(node.running);
    node.apply_event(&NetworkEvent::Error(NetworkError::Common("x".to_string())));
    assert!(!node.running);
    node.apply_event(&NetworkEvent::Connected);
    assert!(node.running);
    node.apply_event(&NetworkEvent::Disconnected);
    assert!(!node.running);
}

#[test]
fn last_event_of_batch_decides() {
    let mut node = NetworkNode::default();
    node.apply_events(&vec![NetworkEvent::Connected, NetworkEvent::Disconnected, NetworkEvent::Listen]);
    assert!(node.running);
    node.apply_events(&vec![]);
    assert!(node.running);
    node.apply_events(&vec![NetworkEvent::Listen, NetworkEvent::Disconnected]);
    assert!(!node.running);
}

#[test]
fn event_classification() {
    assert!(NetworkEvent::Listen.reports_up());
    assert!(NetworkEvent::Connected.reports_up());
    assert!(!NetworkEvent::Disconnected.reports_up());
    assert!(NetworkEvent::Disconnected.reports_connection_end());
    assert!(NetworkEvent::Error(NetworkError::Connection("refused".to_string())).reports_connection_end());
    assert!(!NetworkEvent::Error(NetworkError::Common("x".to_string())).reports_connection_end());
    assert!(!NetworkEvent::Connected.reports_connection_end());
}

#[test]
fn network_setting_defaults() {
    let s = NetworkSetting::default();
    assert_eq!(s.max_packet_size, 65535);
    assert!(s.auto_start);
    let _marker = StopMarker;
}

#[test]
fn error_messages() {
    assert_eq!(NetworkError::Common("boom".to_string()).message(), "boom");
    assert_eq!(
        NetworkError::Connection("x".to_string()).message(),
        "An error occurred when trying to connect."
    );
    assert_eq!(
        NetworkError::SerializeError("bad".to_string()).message(),
        "Failed to serialize data: bad"
    );
    assert_eq!(
        NetworkError::DeserializeError("eof".to_string()).message(),
        "Failed to deserialize data: eof"
    );
    let io = std::io::Error::new(std::io::ErrorKind::Other, "oops");
    assert_eq!(NetworkError::IoError(io).message(), "Failed to read/write file(s)");
    let io = std::io::Error::new(std::io::ErrorKind::AddrInUse, "in use");
    assert_eq!(
        NetworkError::Listen(io).message(),
        "An error occurred while trying to listen: in use"
    );
    assert!(NetworkError::Connection(String::new()).is_connection());
    assert!(!NetworkError::Common(String::new()).is_connection());
}

#[test]
fn reconnect_counts_and_schedules() {
    let s = client_reconnect(0, 3, &NetworkEvent::Disconnected);
    assert_eq!((s.retries, s.start_timer), (1, true));
    let s = client_reconnect(1, 3, &NetworkEvent::Error(NetworkError::Connection("no".to_string())));
    assert_eq!((s.retries, s.start_timer), (2, true));
    let s = client_reconnect(2, 3, &NetworkEvent::Error(NetworkError::Common("x".to_string())));
    assert_eq!((s.retries, s.start_timer), (3, false));
}

#[test]
fn reconnect_resets_on_connect() {
    let s = client_reconnect(2, 3, &NetworkEvent::Connected);
    assert_eq!((s.retries, s.start_timer), (0, false));
    let s = client_reconnect(1, 3, &NetworkEvent::Listen);
    assert_eq!((s.retries, s.start_timer), (0, false));
}

#[test]
fn reconnect_exhausted_client_does_nothing() {
    let s = client_reconnect(3, 3, &NetworkEvent::Disconnected);
    assert_eq!((s.retries, s.start_timer), (3, false));
    let s = client_reconnect(3, 3, &NetworkEvent::Connected);
    assert_eq!((s.retries, s.start_timer), (3, false));
}

#[test]
fn reconnect_timers_bounded_by_limit() {
    let mut retries = 0;
    let mut timers = 0;
    for _ in 0..10 {
        let s = client_reconnect(retries, 4, &NetworkEvent::Disconnected);
        retries = s.retries;
        if s.start_timer {
            timers += 1;
        }
        assert!(retries <= 4);
    }
    assert_eq!(timers, 4);
}

#[test]
fn registry_first_registration_and_lookup() {
    let mut reg = ChannelRegistry::new();
    let m = TypeId::of::<u32>();
    let t = TypeId::of::<String>();
    let other = TypeId::of::<u64>();
    assert!(!reg.has_channel(m, t, &TCP_CHANNEL));
    assert!(reg.register(m, t, TCP_CHANNEL));
    assert!(!reg.register(m, t, UDP_CHANNEL));
    assert!(!reg.register(m, t, UDP_CHANNEL));
    assert!(reg.has_channel(m, t, &TCP_CHANNEL));
    assert!(reg.has_channel(m, t, &UDP_CHANNEL));
    assert!(!reg.has_channel(other, t, &TCP_CHANNEL));
    assert!(reg.register(other, t, TCP_CHANNEL));
    assert!(!reg.has_channel(other, t, &UDP_CHANNEL));
}

#[test]
fn encoder_serves_running_nodes_of_its_channel() {
    let mut node = NetworkNode::default();
    assert!(!encoder_accepts(&TCP_CHANNEL, &node, &TCP_CHANNEL));
    node.start();
    assert!(encoder_accepts(&TCP_CHANNEL, &node, &TCP_CHANNEL));
    assert!(!encoder_accepts(&TCP_CHANNEL, &node, &UDP_CHANNEL));
}

#[test]
fn partition_keeps_order() {
    let results: Vec<Result<u8, NetworkError>> = vec![
        Ok(1),
        Err(NetworkError::DeserializeError("a".to_string())),
        Ok(2),
        Err(NetworkError::DeserializeError("b".to_string())),
        Ok(3),
    ];
    let (ok, err) = partition_results(results);
    assert_eq!(ok, vec![1, 2, 3]);
    let texts: Vec<String> = err.iter().map(|e| e.message()).collect();
    assert_eq!(texts, vec!["Failed to deserialize data: a", "Failed to deserialize data: b"]);
    let (ok, err) = partition_results::<u8>(vec![]);
    assert!(ok.is_empty() && err.is_empty());
}

#[test]
fn received_messages_carry_channel() {
    let r = received_messages(UDP_CHANNEL, vec!["a", "b"]);
    assert_eq!(r.len(), 2);
    assert_eq!(r[0].channel_id, UDP_CHANNEL);
    assert_eq!(r[0].message, "a");
    assert_eq!(r[1].message, "b");
}

#[test]
fn encoded_result_becomes_packet_or_error() {
    match encoded_packet(Ok(vec![5, 6]), Some(local(9))) {
        Ok(p) => {
            assert_eq!(&p.bytes[..], &[5, 6]);
            assert_eq!(p.addr, Some(local(9)));
            assert!(p.text.is_none());
        }
        Err(_) => panic!("expected a packet"),
    }
    match encoded_packet(Err(NetworkError::SerializeError("x".to_string())), None) {
        Err(NetworkEvent::Error(NetworkError::SerializeError(s))) => {
            assert_eq!(s, "Failed to serialize data: x")
        }
        _ => panic!("expected a serialize error event"),
    }
}

#[test]
fn deliver_encoded_uses_the_right_queue() {
    let node = NetworkNode::default();
    assert!(node.deliver_encoded(Ok(vec![1]), None));
    assert!(!node.deliver_encoded(Err(NetworkError::Common("c".to_string())), None));
    assert!(node.send_message_channel.receiver.try_recv().unwrap().is_some());
    match node.event_channel.receiver.try_recv().unwrap() {
        Some(NetworkEvent::Error(NetworkError::SerializeError(s))) => assert_eq!(s, "c"),
        _ => panic!("expected an error event"),
    }
}

#[test]
fn url_address_extracts_host_and_port() {
    assert_eq!(url_address("udp://127.0.0.1:4002"), "127.0.0.1:4002");
    assert_eq!(url_address("tcp://localhost:80/path/x"), "localhost:80");
    assert_eq!(url_address("ws://a:1//b"), "a:1");
    assert_eq!(url_address("//"), "");
    assert_eq!(url_address("a///b"), "");
}

#[test]
fn send_attempts_stop_at_limit() {
    let mut a = SendAttempts::new(3);
    let mut made = 0;
    while a.may_attempt() {
        made += 1;
        assert_eq!(a.record(SendOutcome::TimedOut), SendDecision::Retry);
    }
    assert_eq!(made, 3);
    let mut a = SendAttempts::new(5);
    assert_eq!(a.record(SendOutcome::Refused), SendDecision::PauseThenRetry);
    assert_eq!(a.attempts, 1);
    assert_eq!(a.record(SendOutcome::Sent), SendDecision::Finished);
    assert_eq!(a.attempts, 1);
    assert_eq!(a.record(SendOutcome::Failed), SendDecision::Abort);
    assert!(!SendAttempts::new(0).may_attempt());
}

#[test]
fn tcp_reads() {
    let buf = [1u8, 2, 3, 4];
    let p = read_packet(Some(2), &buf, Some(local(7))).unwrap();
    assert_eq!(&p.bytes[..], &[1, 2]);
    assert_eq!(p.addr, Some(local(7)));
    assert!(read_packet(Some(0), &buf, None).is_none());
    assert!(read_packet(None, &buf, None).is_none());
}

#[test]
fn udp_datagrams() {
    let buf = [4u8, 5, 6];
    let p = datagram_packet(&buf, 3, local(3));
    assert_eq!(&p.bytes[..], &[4, 5, 6]);
    assert_eq!(p.addr, Some(local(3)));
    let empty = datagram_packet(&buf, 0, local(3));
    assert!(empty.bytes.is_empty());
}

#[test]
fn ws_frames() {
    match ws_frame(NetworkRawPacket::text("hi".to_string(), None)) {
        WsFrame::Text(t) => assert_eq!(t, "hi"),
        WsFrame::Binary(_) => panic!("expected text"),
    }
    match ws_frame(NetworkRawPacket::binary(&[1, 2], None)) {
        WsFrame::Binary(b) => assert_eq!(&b[..], &[1, 2]),
        WsFrame::Text(_) => panic!("expected binary"),
    }
}

#[test]
fn connection_id_display() {
    assert_eq!(ConnectionId { id: 42 }.to_display_string(), "Connection with ID=42");
    assert_eq!(ConnectionId { id: 0 }.to_display_string(), "Connection with ID=0");
    assert_eq!(ConnectionId { id: 10 }.to_display_string(), "Connection with ID=10");
    assert_eq!(ConnectionId { id: u32::MAX }.to_display_string(), "Connection with ID=4294967295");
    assert_eq!(ConnectionId { id: 7 }, ConnectionId { id: 7 });
}

#[test]
fn server_events_and_sets() {
    match ServerEvent::ServerStarted(TCP_CHANNEL) {
        ServerEvent::ServerStarted(c) => assert_eq!(c, TCP_CHANNEL),
        ServerEvent::ServerStopped(_) => panic!("wrong variant"),
    }
    assert_ne!(NetworkSet::Receive, NetworkSet::Send);
}

#[test]
fn listen_to_parses_and_splits() {
    let l = bevy_octopus::network::ListenTo::parse("udp://127.0.0.1:4002").unwrap();
    assert_eq!(l.as_str(), "udp://127.0.0.1:4002");
    assert_eq!(l.scheme(), "udp");
    assert_eq!(l.local_addr(), "127.0.0.1:4002");
    assert!(l.has_address());
    let l = bevy_octopus::network::ListenTo::new("tcp://localhost:4321/chat");
    assert_eq!(l.scheme(), "tcp");
    assert_eq!(l.local_addr(), "localhost:4321");
    assert!(bevy_octopus::network::ListenTo::parse("no url at all").is_none());
}

#[test]
fn connect_to_parses_and_splits() {
    let c = bevy_octopus::network::ConnectTo::new("ws://127.0.0.1:8080");
    assert_eq!(c.scheme(), "ws");
    assert_eq!(c.peer_addr(), "127.0.0.1:8080");
    assert!(bevy_octopus::network::ConnectTo::parse("").is_none());
    let c = bevy_octopus::network::ConnectTo::parse("mailto:someone").unwrap();
    assert_eq!(c.scheme(), "mailto");
    assert!(!c.as_str().contains("//"));
    assert!(!c.has_address());
    assert!(bevy_octopus::network::ConnectTo::new("ws://127.0.0.1:8080").has_address());
}

fn v6(ipv6: u128, port: u16) -> PeerAddr {
    PeerAddr::V6 { ipv6, port, flowinfo: 0, scope_id: 0 }
}

#[test]
fn raw_packet_debug_text() {
    let p = NetworkRawPacket::binary(&[9, 8], Some(local(4000)));
    assert_eq!(p.debug_text(), "NetworkRawPacket { addr: Some(127.0.0.1:4000), len: 2 }");
    let t = NetworkRawPacket::text("hello".to_string(), None);
    assert_eq!(t.debug_text(), "NetworkRawPacket { addr: None, len: 0 }");
    let big = NetworkRawPacket::binary(&[0u8; 1234], Some(v6(1, 80)));
    assert_eq!(big.debug_text(), "NetworkRawPacket { addr: Some([::1]:80), len: 1234 }");
}

#[test]
fn peer_addr_text() {
    assert_eq!(
        PeerAddr::V4 { ipv4: 0xffff_ffff, port: 65535 }.to_display_string(),
        "255.255.255.255:65535"
    );
    assert_eq!(PeerAddr::V4 { ipv4: 0, port: 0 }.to_display_string(), "0.0.0.0:0");
    assert_eq!(v6(0, 1).to_display_string(), "[::]:1");
    assert_eq!(v6(0x2001_0db8_0000_0000_0000_0000_0000_0001, 8080).to_display_string(), "[2001:db8::1]:8080");
    assert_eq!(v6(0x2001_0db8_0000_0000_0001_0000_0000_0001, 1).to_display_string(), "[2001:db8::1:0:0:1]:1");
    assert_eq!(v6(0x0001_0000_0000_0002_0000_0000_0000_0003, 1).to_display_string(), "[1:0:0:2::3]:1");
    assert_eq!(v6(0x0001_0000_0001_0000_0001_0000_0001_0000, 1).to_display_string(), "[1:0:1:0:1:0:1:0]:1");
    assert_eq!(v6(0x0000_0000_0001_0000_0000_0000_0000_0000, 1).to_display_string(), "[0:0:1::]:1");
    assert_eq!(v6(0x0000_0000_0000_0000_0000_ffff_c0a8_0101, 80).to_display_string(), "[::ffff:192.168.1.1]:80");
    assert_eq!(
        PeerAddr::V6 { ipv6: 0xfe80_0000_0000_0000_0000_0000_0000_0001, port: 9, flowinfo: 7, scope_id: 3 }
            .to_display_string(),
        "[fe80::1%3]:9"
    );
}
