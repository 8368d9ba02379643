use std::sync::atomic::AtomicUsize;
use std::sync::atomic::Ordering;
use std::sync::Arc;

use remotelab::capture::FrameRef;
use remotelab::capture::PixelFormat;
use remotelab::encoder::software::SoftwareEncoder;
use remotelab::encoder::EncodedFrame;
use remotelab::encoder::EncoderConfig;
use remotelab::encoder::VideoCodec as EncoderCodec;
use remotelab::transport::framing::frame;
use remotelab::transport::framing::parse_frame;
use remotelab::transport::framing::parse_tunnel_frame;
use remotelab::transport::framing::tunnel_frame;
use remotelab::transport::framing::Channel;
use remotelab::transport::protocol::ConnectionConfig;
use remotelab::transport::protocol::ControlPacket;
use remotelab::transport::protocol::InputAck;
use remotelab::transport::protocol::NetworkStats;
use remotelab::transport::protocol::TransportError;
use remotelab::transport::protocol::TransportMode;
use remotelab::transport::protocol::VideoCodec;
use remotelab::transport::protocol::VideoPacket;
use remotelab::transport::session::wire_codec;
use remotelab::transport::session::ConnectionState;
use remotelab::transport::session::ControlAction;
use remotelab::transport::session::SendOutcome;
use remotelab::transport::session::TickAction;
use remotelab::transport::session::TransportSession;
use remotelab::transport::session::VideoFollowUp;
use remotelab::transport::sshtunnel::AuthMethod;
use remotelab::transport::sshtunnel::PoolDecision;
use remotelab::transport::sshtunnel::SshConfig;
use remotelab::transport::sshtunnel::SshConnectionPool;
use remotelab::transport::BandwidthEstimator;
use remotelab::transport::LatencyMonitor;
use remotelab::transport::TransportFactory;
use remotelab::transport::TransportManager;

const SCENARIO_BYTES: [u8; 31] = [
    0x00, 0x00, 0x00, 0x2A, 0x00, 0x00, 0x00, 0x00, 0x00, 0xBC, 0x61, 0x4E, 0x00, 0x00, 0x00, 0x05,
    0x01, 0x00, 0x00, 0x07, 0x80, 0x00, 0x00, 0x04, 0x38, 0x00, 0x01, 0x02, 0x03, 0x04, 0x05,
];

fn sample_packet() -> VideoPacket {
    VideoPacket {
        seq: 42,
        timestamp: 12345678,
        data: vec![1, 2, 3, 4, 5],
        key_frame: true,
        width: 1920,
        height: 1080,
        codec: VideoCodec::H264,
    }
}

fn encoded_frame(pts: u64) -> EncodedFrame {
    let mut encoder = SoftwareEncoder::new();
    let mut config = EncoderConfig::default();
    config.width = 4;
    config.height = 2;
    config.codec = EncoderCodec::HEVC;
    encoder.init(&config).unwrap();
    let frame = FrameRef::from_data(vec![7; 32], 4, 2, PixelFormat::RGBA, pts);
    encoder.encode(&frame).unwrap()
}

fn connected(mode: TransportMode) -> TransportSession {
    let mut config = ConnectionConfig::default();
    config.mode = mode;
    let mut session = TransportSession::new(&config);
    session.connect(0).unwrap();
    assert_eq!(session.on_connect_response(true, 10), ControlAction::Established);
    session
}

#[test]
fn protocol_test_video_packet_encode_decode() {
    let packet = sample_packet();

    let mut buf = bytes::BytesMut::new();
    packet.encode(&mut buf);

    let decoded = VideoPacket::decode(&buf).unwrap();

    assert_eq!(decoded.seq, packet.seq);
    assert_eq!(decoded.timestamp, packet.timestamp);
    assert_eq!(decoded.data, packet.data);
    assert_eq!(decoded.key_frame, packet.key_frame);
    assert_eq!(decoded.width, packet.width);
    assert_eq!(decoded.height, packet.height);
    assert_eq!(decoded.codec, packet.codec);
}

#[test]
fn tests_test_video_packet_encode_decode() {
    let packet = sample_packet();

    let mut buf = bytes::BytesMut::new();
    packet.encode(&mut buf);
    assert_eq!(&buf[..], &SCENARIO_BYTES[..]);

    let decoded = VideoPacket::decode(&buf).unwrap();
    assert_eq!(decoded, packet);
}

#[test]
fn test_video_packet_wire_scenario() {
    let decoded = VideoPacket::decode(&SCENARIO_BYTES).unwrap();
    assert_eq!(decoded.seq, 42);
    assert_eq!(decoded.timestamp, 12345678);
    assert_eq!(decoded.data, vec![1, 2, 3, 4, 5]);
    assert!(decoded.key_frame);
    assert_eq!(decoded.width, 1920);
    assert_eq!(decoded.height, 1080);
    assert_eq!(decoded.codec, VideoCodec::H264);
    assert_eq!(decoded.to_bytes(), Some(SCENARIO_BYTES.to_vec()));
    let mut buf = bytes::BytesMut::new();
    assert!(decoded.try_encode(&mut buf));
    assert_eq!(&buf[..], &SCENARIO_BYTES[..]);
    decoded.encode(&mut buf);
    assert_eq!(buf.len(), 62);
    assert_eq!(&buf[31..], &SCENARIO_BYTES[..]);
}

#[test]
fn test_video_packet_round_trip_of_every_codec() {
    for (codec, byte) in [
        (VideoCodec::H264, 0u8),
        (VideoCodec::H265, 1),
        (VideoCodec::VP9, 2),
        (VideoCodec::AV1, 3),
    ] {
        let packet = VideoPacket {
            seq: u32::MAX,
            timestamp: u64::MAX - 1,
            data: vec![],
            key_frame: false,
            width: 0x01020304,
            height: 0xA0B0C0D0,
            codec,
        };
        let bytes = packet.to_bytes().unwrap();
        assert_eq!(bytes.len(), VideoPacket::HEADER_SIZE);
        assert_eq!(bytes[25], byte);
        assert_eq!(&bytes[0..4], &[0xFF; 4]);
        assert_eq!(&bytes[4..12], &[0xFF, 0xFF, 0xFF, 0xFF, 0xFF, 0xFF, 0xFF, 0xFE]);
        assert_eq!(&bytes[17..21], &[1, 2, 3, 4]);
        assert_eq!(&bytes[21..25], &[0xA0, 0xB0, 0xC0, 0xD0]);
        assert_eq!(VideoPacket::decode(&bytes), Ok(packet));
        assert_eq!(codec.to_byte(), byte);
        assert_eq!(VideoCodec::from_byte(byte), Some(codec));
    }
}

#[test]
fn test_video_packet_invalid_inputs() {
    let mut unknown = SCENARIO_BYTES.to_vec();
    unknown[25] = 4;
    assert_eq!(VideoPacket::decode(&unknown), Err(TransportError::InvalidPacket));
    unknown[25] = 0xFF;
    assert_eq!(VideoPacket::decode(&unknown), Err(TransportError::InvalidPacket));
    assert_eq!(VideoCodec::from_byte(4), None);
    assert_eq!(VideoPacket::decode(&[]), Err(TransportError::InvalidPacket));
    assert_eq!(VideoPacket::decode(&SCENARIO_BYTES[..25]), Err(TransportError::InvalidPacket));
    assert_eq!(VideoPacket::decode(&SCENARIO_BYTES[..30]), Err(TransportError::InvalidPacket));
    let mut empty = SCENARIO_BYTES[..26].to_vec();
    empty[15] = 0;
    assert_eq!(VideoPacket::decode(&empty).map(|p| p.data), Ok(vec![]));
    let mut trailing = SCENARIO_BYTES.to_vec();
    trailing.push(9);
    assert_eq!(VideoPacket::decode(&trailing), Ok(sample_packet()));
    let mut other_key = SCENARIO_BYTES.to_vec();
    other_key[16] = 2;
    assert_eq!(VideoPacket::decode(&other_key).map(|p| p.key_frame), Ok(true));
    other_key[16] = 0;
    assert_eq!(VideoPacket::decode(&other_key).map(|p| p.key_frame), Ok(false));
}

#[test]
fn test_video_packet_default() {
    let packet = VideoPacket::default();
    assert_eq!(packet.seq, 0);
    assert_eq!(packet.timestamp, 0);
    assert!(packet.data.is_empty());
    assert!(!packet.key_frame);
    assert_eq!(packet.width, 1920);
    assert_eq!(packet.height, 1080);
    assert_eq!(packet.codec, VideoCodec::H264);
}

#[test]
fn test_transport_error_messages() {
    assert_eq!(TransportError::Io("x".to_string()).to_string(), "IO error: x");
    assert_eq!(TransportError::Codec("y".to_string()).to_string(), "Codec error: y");
    assert_eq!(TransportError::Connection("z".to_string()).to_string(), "Connection error: z");
    assert_eq!(TransportError::Timeout.to_string(), "Operation timeout");
    assert_eq!(TransportError::NotConnected.to_string(), "Not connected");
    assert_eq!(TransportError::InvalidPacket.to_string(), "Invalid packet");
}

#[test]
fn test_connection_config_default() {
    let config = ConnectionConfig::default();
    assert_eq!(config.addr, "127.0.0.1:8080");
    assert_eq!(config.mode, TransportMode::Quic);
    assert_eq!(config.cert_path, None);
    assert_eq!(config.timeout_secs, 10);
    assert_eq!(config.video_bitrate, 10_000_000);
    assert_eq!(config.fps, 60);
    assert_eq!(config.resolution, (1920, 1080));
    assert_eq!(config.clone(), config);
    let ping = ControlPacket::Ping { timestamp: 5 };
    assert_eq!(ping.clone(), ping);
    let connect = ControlPacket::Connect {
        client_version: "1.0.0".to_string(),
        capabilities: vec!["h264".to_string(), "h265".to_string()],
    };
    assert_eq!(connect.clone(), connect);
    let ack = InputAck { seq: 1, timestamp: 2, success: true };
    assert_eq!(ack, ack.clone());
    assert_eq!(NetworkStats::default().packets_sent, 0);
}

#[test]
fn test_frames_of_the_reliable_channels() {
    let framed = frame(0x0102030405060708, b"{}").unwrap();
    assert_eq!(framed, vec![1, 2, 3, 4, 5, 6, 7, 8, 0, 0, 0, 2, b'{', b'}']);
    assert_eq!(parse_frame(&framed), Some((0x0102030405060708, b"{}".to_vec(), 14)));
    assert_eq!(parse_frame(&framed[..13]), None);
    assert_eq!(parse_frame(&framed[..11]), None);
    let mut two = framed.clone();
    two.extend_from_slice(&frame(9, b"").unwrap());
    assert_eq!(parse_frame(&two), Some((0x0102030405060708, b"{}".to_vec(), 14)));
    assert_eq!(parse_frame(&two[14..]), Some((9, vec![], 12)));
    assert_eq!(
        tunnel_frame(Channel::Video, 77, &[9, 8]).unwrap(),
        vec![b'V', b'I', b'D', b'E', b'O', 0, 0, 0, 2, 9, 8]
    );
    assert_eq!(
        tunnel_frame(Channel::Input, 3, &[1]).unwrap(),
        vec![b'I', b'N', b'P', b'U', b'T', 0, 0, 0, 0, 0, 0, 0, 3, 0, 0, 0, 1, 1]
    );
    assert_eq!(
        tunnel_frame(Channel::Control, 3, &[]).unwrap(),
        vec![b'C', b'T', b'R', b'L', 0, 0, 0, 0]
    );
}

#[test]
fn test_tunnel_frames_are_read_back() {
    let mut stream = tunnel_frame(Channel::Input, 7, b"in").unwrap();
    stream.extend_from_slice(&tunnel_frame(Channel::Video, 9, &[1, 2, 3]).unwrap());
    stream.extend_from_slice(&tunnel_frame(Channel::Control, 9, b"").unwrap());
    let first = parse_tunnel_frame(&stream).unwrap().unwrap();
    assert_eq!(first.channel, Channel::Input);
    assert_eq!(first.seq, 7);
    assert_eq!(first.payload, b"in".to_vec());
    assert_eq!(first.consumed, 19);
    let second = parse_tunnel_frame(&stream[19..]).unwrap().unwrap();
    assert_eq!(second.channel, Channel::Video);
    assert_eq!(second.seq, 0);
    assert_eq!(second.payload, vec![1, 2, 3]);
    assert_eq!(second.consumed, 12);
    let third = parse_tunnel_frame(&stream[31..]).unwrap().unwrap();
    assert_eq!(third.channel, Channel::Control);
    assert_eq!(third.payload, Vec::<u8>::new());
    assert_eq!(third.consumed, 8);
    assert!(parse_tunnel_frame(&stream[..18]).unwrap().is_none());
    assert!(parse_tunnel_frame(&stream[..3]).unwrap().is_none());
    assert!(parse_tunnel_frame(b"VIDE").unwrap().is_none());
    assert!(parse_tunnel_frame(b"CTRL").unwrap().is_none());
    assert!(parse_tunnel_frame(b"").unwrap().is_none());
    assert_eq!(parse_tunnel_frame(b"AUDIO").err(), Some(TransportError::InvalidPacket));
    assert_eq!(parse_tunnel_frame(b"VIDEX\0\0\0\0").err(), Some(TransportError::InvalidPacket));
}

#[test]
fn quic_test_quic_transport_creation() {
    let config = ConnectionConfig::default();
    let transport = TransportFactory::create_quic(config);
    assert!(transport.is_ok());
}

#[test]
fn tests_test_quic_transport_creation() {
    let config = ConnectionConfig::default();
    let transport = TransportFactory::create_quic(config).unwrap();
    assert_eq!(transport.mode(), TransportMode::Quic);
    assert_eq!(transport.state(), ConnectionState::Idle);
    assert!(transport.uses_datagrams());
}

#[test]
fn test_stats_initial() {
    let config = ConnectionConfig::default();
    let transport = TransportFactory::create_quic(config).unwrap();
    let stats = transport.stats();
    assert_eq!(stats.rtt_us, 0);
    assert_eq!(stats.packets_sent, 0);
}

#[test]
fn test_quic_stats_initial() {
    let config = ConnectionConfig::default();
    let transport = TransportFactory::create_quic(config).unwrap();
    let stats = transport.stats();
    assert_eq!(stats.rtt_us, 0);
    assert_eq!(stats.packets_sent, 0);
    assert_eq!(stats.bytes_sent, 0);
}

#[test]
fn webtransport_test_webtransport_client_creation() {
    let config = ConnectionConfig::default();
    let client = TransportFactory::create_webtransport(config);
    assert!(client.is_ok());
}

#[test]
fn tests_test_webtransport_client_creation() {
    let config = ConnectionConfig::default();
    let client = TransportFactory::create_webtransport(config).unwrap();
    assert_eq!(client.mode(), TransportMode::WebTransport);
}

#[test]
fn webtransport_test_webtransport_stats() {
    let config = ConnectionConfig::default();
    let client = TransportFactory::create_webtransport(config).unwrap();
    let stats = client.stats();
    assert_eq!(stats.rtt_us, 0);
}

#[test]
fn tests_test_webtransport_stats() {
    let config = ConnectionConfig::default();
    let client = TransportFactory::create_webtransport(config).unwrap();
    assert_eq!(client.stats(), NetworkStats::default());
}

#[test]
fn sshtunnel_test_ssh_tunnel_creation() {
    let config = ConnectionConfig::default();
    let transport = TransportFactory::create_sshtunnel(config);
    assert!(transport.is_ok());
}

#[test]
fn tests_test_ssh_tunnel_creation() {
    let config = ConnectionConfig::default();
    let transport = TransportFactory::create_sshtunnel(config).unwrap();
    assert_eq!(transport.mode(), TransportMode::SshTunnel);
    assert!(!transport.uses_datagrams());
}

#[test]
fn test_ssh_config_default() {
    let config = SshConfig::default();
    assert_eq!(config.ssh_port, 22);
    assert_eq!(config.username, "user");
    assert_eq!(config.ssh_host, "localhost");
    assert_eq!(config.remote_dest, "localhost:8080");
    assert_eq!(config.password, None);
    assert_eq!(config.private_key, None);
}

#[test]
fn test_ssh_auth_method() {
    let mut config = SshConfig::default();
    assert!(matches!(config.auth_method(), Err(TransportError::Connection(_))));
    config.password = Some("secret".to_string());
    assert_eq!(config.auth_method(), Ok(AuthMethod::Password));
    config.private_key = Some("/key".to_string());
    assert_eq!(config.auth_method(), Ok(AuthMethod::PublicKey));
}

#[test]
fn sshtunnel_test_ssh_stats() {
    let config = ConnectionConfig::default();
    let transport = TransportFactory::create_sshtunnel(config).unwrap();
    let stats = transport.stats();
    assert_eq!(stats.bytes_sent, 0);
}

#[test]
fn tests_test_ssh_stats() {
    let transport = connected(TransportMode::SshTunnel);
    let stats = transport.stats();
    assert_eq!(stats.bytes_sent, 0);
}

#[test]
fn test_transport_factory_create() {
    let config = ConnectionConfig::default();
    let modes = vec![TransportMode::Quic, TransportMode::WebTransport, TransportMode::SshTunnel];

    for mode in modes {
        let mut config = config.clone();
        config.mode = mode;
        let result = TransportFactory::create(&config);
        assert!(result.is_ok());
        assert_eq!(result.unwrap().mode(), mode);
    }
}

#[test]
fn test_transport_manager() {
    let config = ConnectionConfig::default();
    let mut manager = TransportManager::new(config);

    assert!(manager.primary().is_none());
    assert_eq!(manager.best_transport(), None);
    assert!(!manager.failover());

    let config1 = ConnectionConfig::default();
    let transport1 = TransportFactory::create(&config1).unwrap();
    manager.add_transport(transport1);

    assert!(manager.primary().is_some());
    assert!(!manager.failover());
}

#[test]
fn test_transport_manager_failover_and_best() {
    let mut manager = TransportManager::new(ConnectionConfig::default());
    let mut slow = connected(TransportMode::Quic);
    slow.record_rtt(50_000);
    slow.record_delivery(100, 1, 0);
    let mut lossy = connected(TransportMode::WebTransport);
    lossy.record_rtt(10_000);
    lossy.record_delivery(2, 1, 0);
    let mut good = connected(TransportMode::SshTunnel);
    good.record_rtt(10_000);
    good.record_delivery(100, 0, 0);
    let mut equal = connected(TransportMode::Quic);
    equal.record_rtt(10_000);
    manager.add_transport(slow);
    manager.add_transport(lossy);
    manager.add_transport(good);
    manager.add_transport(equal);
    assert_eq!(manager.best_transport(), Some(2));
    assert_eq!(manager.primary().unwrap().mode(), TransportMode::Quic);
    assert!(manager.failover());
    assert_eq!(manager.primary().unwrap().mode(), TransportMode::WebTransport);
    assert!(manager.failover());
    assert!(manager.failover());
    assert!(manager.failover());
    assert_eq!(manager.primary().unwrap().stats().rtt_us, 50_000);
    assert_eq!(manager.primary().unwrap().stats().loss_ppm, 10_000);
    let all = manager.all_stats();
    assert_eq!(all.len(), 4);
    assert_eq!(all[1].0, TransportMode::WebTransport);
    assert_eq!(all[1].1.loss_ppm, 500_000);
    assert_eq!(all[2].1.rtt_us, 10_000);
    manager.disconnect_all();
    assert!(manager.primary().is_none());
    assert!(manager.all_stats().is_empty());
}

#[test]
fn test_latency_monitor() {
    let mut monitor = LatencyMonitor::new(10);

    monitor.add_sample(10_000);
    monitor.add_sample(20_000);
    monitor.add_sample(15_000);

    let avg = monitor.average_rtt();
    assert!((avg as i64 - 15_000).abs() < 10);
    assert_eq!(avg, 15_000);

    let jitter = monitor.jitter();
    assert!(jitter > 0);
    assert_eq!(jitter, 4_082);
}

#[test]
fn test_latency_monitor_window_and_loss() {
    let mut monitor = LatencyMonitor::new(3);
    for sample in [1u32, 2, 3, 4, 5] {
        monitor.add_sample(sample);
    }
    assert_eq!(monitor.average_rtt(), 4);
    assert_eq!(monitor.loss_rate(0, 0), 0);
    assert_eq!(monitor.loss_rate(100, 95), 50_000);
    assert_eq!(monitor.loss_rate(3, 2), 333_333);
    assert_eq!(monitor.loss_rate(10, 0), 1_000_000);
    assert_eq!(monitor.loss_rate(10, 11), 0);
    let mut one = LatencyMonitor::new(0);
    one.add_sample(7);
    one.add_sample(9);
    assert_eq!(one.average_rtt(), 9);
    assert_eq!(one.jitter(), 0);
    assert_eq!(LatencyMonitor::new(5).average_rtt(), 0);
}

#[test]
fn test_bandwidth_estimator() {
    let mut estimator = BandwidthEstimator::new(0);

    let initial = estimator.estimate();
    assert_eq!(initial, 10_000_000);

    estimator.update(1_000_000, 0);
    assert_eq!(estimator.estimate(), 10_000_000);
    estimator.update(2_000_000, 100_000);

    let estimate = estimator.estimate();
    assert!(estimate > 0);
    assert_eq!(estimate, 40_000_000);
    estimator.update(2_000_000, 200_000);
    assert_eq!(estimator.estimate(), 40_000_000);
    estimator.update(3_000_000, 100_000);
    assert_eq!(estimator.estimate(), 40_000_000);
}

#[test]
fn test_high_frequency_packets() {
    let iterations = 1000;
    let mut total = 0usize;
    for i in 0..iterations {
        let packet = VideoPacket {
            seq: i as u32,
            timestamp: 1_700_000_000_000_000 + i as u64,
            data: vec![0u8; 1000],
            key_frame: i % 30 == 0,
            width: 1920,
            height: 1080,
            codec: VideoCodec::H264,
        };

        let mut buf = bytes::BytesMut::new();
        packet.encode(&mut buf);
        total += buf.len();
    }
    assert_eq!(total, iterations * 1026);
}

#[test]
fn test_memory_usage() {
    let counter = Arc::new(AtomicUsize::new(0));
    for _ in 0..100 {
        let config = ConnectionConfig::default();
        let _transport = TransportFactory::create_quic(config);
        counter.fetch_add(1, Ordering::SeqCst);
    }
    assert_eq!(counter.load(Ordering::SeqCst), 100);
}

#[test]
fn test_connection_timeout() {
    let config = ConnectionConfig {
        addr: "127.0.0.1:9999".to_string(),
        mode: TransportMode::WebTransport,
        cert_path: None,
        timeout_secs: 1,
        video_bitrate: 10_000_000,
        fps: 60,
        resolution: (1920, 1080),
    };

    let mut transport = TransportFactory::create(&config).unwrap();
    assert!(transport.connect(5_000).is_ok());
    assert_eq!(transport.state(), ConnectionState::Connecting);
    assert_eq!(transport.tick(5_999), TickAction::Wait);
    assert_eq!(transport.tick(6_000), TickAction::TimedOut);
    assert_eq!(transport.state(), ConnectionState::Closed);
    assert_eq!(TransportSession::timeout_error(), TransportError::Timeout);
    assert!(matches!(transport.connect(7_000), Err(TransportError::Connection(_))));
    assert_eq!(transport.send_input(b"{}"), Err(TransportError::NotConnected));
}

#[test]
fn test_connection_handshake() {
    let mut session = TransportSession::new(&ConnectionConfig::default());
    assert!(!session.is_connected());
    assert_eq!(session.send_input(b"{}"), Err(TransportError::NotConnected));
    assert_eq!(session.send_control(b"{}"), Err(TransportError::NotConnected));
    assert_eq!(session.send_video(&encoded_frame(1)), Err(TransportError::NotConnected));
    let request = session.connect(100).unwrap();
    assert_eq!(
        request,
        ControlPacket::Connect {
            client_version: "0.1.0".to_string(),
            capabilities: vec!["h264".to_string(), "h265".to_string()],
        }
    );
    assert_eq!(session.send_video(&encoded_frame(1)), Err(TransportError::NotConnected));
    assert_eq!(session.on_connect_response(true, 150), ControlAction::Established);
    assert!(session.is_connected());
    assert_eq!(session.on_connect_response(false, 160), ControlAction::Ignore);
    assert!(session.is_connected());

    let mut refused = TransportSession::new(&ConnectionConfig::default());
    refused.connect(0).unwrap();
    let answer = ControlPacket::ConnectResponse {
        success: false,
        server_version: "1".to_string(),
        session_id: "s".to_string(),
    };
    assert_eq!(refused.on_control(&answer, 0, 1), ControlAction::Refused);
    assert_eq!(refused.state(), ConnectionState::Closed);
}

#[test]
fn test_ping_every_second_and_rtt_from_pong() {
    let mut session = connected(TransportMode::Quic);
    assert_eq!(session.tick(1_009), TickAction::Wait);
    assert_eq!(session.tick(1_010), TickAction::SendPing { timestamp: 1_010_000 });
    assert_eq!(session.tick(1_500), TickAction::Wait);
    assert_eq!(session.tick(2_010), TickAction::SendPing { timestamp: 2_010_000 });
    let pong = ControlPacket::Pong { timestamp: 2_010_000 };
    assert_eq!(
        session.on_control(&pong, 2_035_000, 2_035),
        ControlAction::RttMeasured { rtt_us: 25_000 }
    );
    assert_eq!(session.stats().rtt_us, 25_000);
    assert_eq!(
        session.on_control(&ControlPacket::Pong { timestamp: 10 }, 15_010, 16),
        ControlAction::RttMeasured { rtt_us: 15_000 }
    );
    assert_eq!(session.stats().rtt_us, 20_000);
    assert_eq!(session.stats().jitter_us, 5_000);
    assert_eq!(
        session.on_control(&ControlPacket::Ping { timestamp: 99 }, 0, 0),
        ControlAction::SendPong { timestamp: 99 }
    );
    assert_eq!(
        session.on_control(&ControlPacket::BandwidthProbe { seq: 1, size: 2 }, 0, 0),
        ControlAction::Ignore
    );
    for i in 0..200u32 {
        session.record_rtt(i);
    }
    assert_eq!(session.stats().rtt_us, 149);
}

#[test]
fn test_loss_rate_over_the_last_second() {
    let mut session = connected(TransportMode::Quic);
    assert_eq!(session.stats().loss_ppm, 0);
    session.record_delivery(0, 0, 0);
    assert_eq!(session.stats().loss_ppm, 0);
    session.record_delivery(100, 5, 100_000);
    assert_eq!(session.stats().loss_ppm, 50_000);
    session.record_delivery(100, 0, 600_000);
    assert_eq!(session.stats().loss_ppm, 25_000);
    assert_eq!(session.stats().packets_lost, 5);
    session.record_delivery(100, 10, 1_100_001);
    assert_eq!(session.stats().loss_ppm, 50_000);
    session.record_delivery(3, 9, 1_100_002);
    assert_eq!(session.stats().loss_ppm, 64_039);
    assert_eq!(session.stats().packets_lost, 18);
}

#[test]
fn test_bandwidth_from_acknowledged_bytes() {
    let mut session = connected(TransportMode::Quic);
    assert_eq!(session.stats().bandwidth_bps, 0);
    session.record_acknowledged(100_000, 0);
    assert_eq!(session.stats().bandwidth_bps, 10_000_000);
    session.record_acknowledged(100_000, 5_000);
    assert_eq!(session.stats().bandwidth_bps, 72_000_000);
    session.record_acknowledged(100_000, 10_000);
    assert_eq!(session.stats().bandwidth_bps, 105_600_000);
}

#[test]
fn test_send_video_numbers_packets() {
    let mut session = connected(TransportMode::Quic);
    let frame = encoded_frame(777);
    let first = session.send_video(&frame).unwrap().unwrap();
    let packet = VideoPacket::decode(&first).unwrap();
    assert_eq!(packet.seq, 0);
    assert_eq!(packet.timestamp, 777);
    assert_eq!(packet.codec, VideoCodec::H265);
    assert_eq!(packet.width, 4);
    assert_eq!(packet.height, 2);
    assert!(packet.key_frame);
    assert_eq!(packet.data, frame.data.to_vec());
    let second = session.send_video(&frame).unwrap().unwrap();
    assert_eq!(VideoPacket::decode(&second).unwrap().seq, 1);
    assert_eq!(session.video_sent(SendOutcome::Delivered, first.len()), VideoFollowUp::Done);
    assert_eq!(session.stats().bytes_sent, first.len() as u64);
    assert_eq!(session.stats().packets_sent, 1);
    assert_eq!(wire_codec(EncoderCodec::H264), VideoCodec::H264);
    assert_eq!(wire_codec(EncoderCodec::AV1), VideoCodec::AV1);

    let mut tunnel = connected(TransportMode::SshTunnel);
    let framed = tunnel.send_video(&frame).unwrap().unwrap();
    assert_eq!(&framed[..5], b"VIDEO");
    assert_eq!(&framed[5..9], &(first.len() as u32).to_be_bytes());
    assert_eq!(&framed[9..], &first[..]);
}

#[test]
fn test_datagram_fallback() {
    let mut session = connected(TransportMode::Quic);
    assert!(session.uses_datagrams());
    assert_eq!(session.video_sent(SendOutcome::DatagramUnsupported, 9), VideoFollowUp::RetryOnStream);
    assert!(!session.uses_datagrams());
    assert_eq!(session.video_sent(SendOutcome::Delivered, 9), VideoFollowUp::Done);
    assert_eq!(session.stats().packets_sent, 1);
    assert_eq!(session.video_sent(SendOutcome::Failed, 9), VideoFollowUp::Done);
    assert_eq!(session.video_sent(SendOutcome::DatagramUnsupported, 9), VideoFollowUp::Done);
    assert_eq!(session.stats().packets_sent, 1);
    assert_eq!(session.stats().bytes_sent, 9);
}

#[test]
fn test_send_input_frames_in_order() {
    let mut session = connected(TransportMode::WebTransport);
    assert_eq!(session.send_input(b"a"), Ok(vec![0, 0, 0, 0, 0, 0, 0, 0, 0, 0, 0, 1, b'a']));
    assert_eq!(session.send_input(b"bc"), Ok(vec![0, 0, 0, 0, 0, 0, 0, 1, 0, 0, 0, 2, b'b', b'c']));
    assert_eq!(session.send_control(b"x"), Ok(vec![0, 0, 0, 0, 0, 0, 0, 0, 0, 0, 0, 1, b'x']));
    assert_eq!(session.send_control(b""), Ok(vec![0, 0, 0, 0, 0, 0, 0, 1, 0, 0, 0, 0]));
    let mut tunnel = connected(TransportMode::SshTunnel);
    assert_eq!(
        tunnel.send_input(b"a"),
        Ok(vec![b'I', b'N', b'P', b'U', b'T', 0, 0, 0, 0, 0, 0, 0, 0, 0, 0, 0, 1, b'a'])
    );
    assert_eq!(tunnel.send_control(b"a"), Ok(vec![b'C', b'T', b'R', b'L', 0, 0, 0, 1, b'a']));
}

#[test]
fn test_recv_video_counts_and_survives_bad_packets() {
    let mut session = connected(TransportMode::Quic);
    assert_eq!(session.recv_video(&SCENARIO_BYTES), Ok(sample_packet()));
    assert_eq!(session.stats().bytes_received, 31);
    assert_eq!(session.stats().packets_received, 1);
    assert_eq!(session.recv_video(&[1, 2, 3]), Err(TransportError::InvalidPacket));
    assert!(session.is_connected());
    assert_eq!(session.stats().packets_received, 1);
    assert_eq!(session.recv_video(&SCENARIO_BYTES), Ok(sample_packet()));
    assert_eq!(session.stats().packets_received, 2);
}

#[test]
fn test_transport_disconnect_scenario() {
    let mut session = connected(TransportMode::Quic);
    session.on_session_lost(TransportError::Io("peer reset".to_string()));
    assert_eq!(session.state(), ConnectionState::Closed);
    assert_eq!(session.send_video(&encoded_frame(1)), Ok(None));
    let refused = session.send_input(b"{}");
    assert!(matches!(refused, Err(TransportError::NotConnected) | Err(TransportError::Io(_))));
    assert_eq!(refused, Err(TransportError::Io("peer reset".to_string())));
    assert_eq!(session.send_input(b"{}"), Err(TransportError::NotConnected));
    assert_eq!(session.send_control(b"{}"), Err(TransportError::NotConnected));
    session.on_session_lost(TransportError::Timeout);
    assert_eq!(session.send_control(b"{}"), Err(TransportError::NotConnected));
}

#[test]
fn test_disconnect_drains_for_a_tenth_of_a_second() {
    let mut session = connected(TransportMode::Quic);
    assert!(session.disconnect(5_000));
    assert_eq!(session.state(), ConnectionState::Draining);
    assert!(!session.disconnect(5_001));
    assert_eq!(session.send_input(b"{}"), Err(TransportError::NotConnected));
    assert_eq!(session.send_video(&encoded_frame(1)), Ok(None));
    assert_eq!(session.tick(5_099), TickAction::Wait);
    assert_eq!(session.tick(5_100), TickAction::Close);
    assert_eq!(session.state(), ConnectionState::Closed);
    assert_eq!(session.tick(9_000), TickAction::Wait);

    let mut peer = connected(TransportMode::Quic);
    let bye = ControlPacket::Disconnect { reason: "bye".to_string() };
    assert_eq!(peer.on_control(&bye, 0, 700), ControlAction::Drain);
    assert_eq!(peer.tick(800), TickAction::Close);
    assert_eq!(peer.on_control(&bye, 0, 900), ControlAction::Ignore);

    let mut idle = TransportSession::new(&ConnectionConfig::default());
    assert!(!idle.disconnect(0));
    assert_eq!(idle.state(), ConnectionState::Closed);
}

#[test]
fn test_ssh_connection_pool() {
    let mut pool = SshConnectionPool::new(2);
    assert_eq!(pool.get_connection(), PoolDecision::Create);
    pool.add(TransportSession::new(&ConnectionConfig::default()));
    assert_eq!(pool.get_connection(), PoolDecision::Create);
    pool.add(connected(TransportMode::SshTunnel));
    assert_eq!(pool.get_connection(), PoolDecision::Reuse(1));
    pool.cleanup();
    assert_eq!(pool.get_connection(), PoolDecision::Reuse(0));
    let mut full = SshConnectionPool::new(1);
    full.add(TransportSession::new(&ConnectionConfig::default()));
    assert_eq!(full.get_connection(), PoolDecision::Exhausted);
    assert_eq!(
        SshConnectionPool::exhausted_error(),
        TransportError::Connection("Connection pool exhausted".to_string())
    );
    full.cleanup();
    assert_eq!(full.get_connection(), PoolDecision::Create);
}

#[test]
fn test_transport_manager_keeps_its_config() {
    let config = ConnectionConfig {
        addr: "10.0.0.7:9443".to_string(),
        mode: TransportMode::SshTunnel,
        cert_path: Some("/etc/remotelab/root.pem".to_string()),
        timeout_secs: 3,
        video_bitrate: 4_000_000,
        fps: 30,
        resolution: (1280, 720),
    };
    let mut manager = TransportManager::new(config.clone());
    assert_eq!(*manager.config(), config);
    assert_ne!(*manager.config(), ConnectionConfig::default());

    manager.add_transport(TransportFactory::create(&config).unwrap());
    manager.add_transport(TransportFactory::create(&config).unwrap());
    assert!(manager.failover());
    manager.disconnect_all();
    assert_eq!(*manager.config(), config);
}
