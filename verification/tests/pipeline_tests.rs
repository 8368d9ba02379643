use remotelab::capture::kms::ConnectorProbe;
use remotelab::capture::kms::ConnectorState;
use remotelab::capture::kms::KmsCapture;
use remotelab::capture::kms::KmsProbe;
use remotelab::capture::BackendKind;
use remotelab::capture::CaptureError;
use remotelab::capture::FrameRef;
use remotelab::capture::PixelFormat;
use remotelab::encoder::create_encoder;
use remotelab::encoder::EncoderBackend;
use remotelab::encoder::EncoderConfig;
use remotelab::encoder::InputPath;
use remotelab::pipeline::assemble;
use remotelab::pipeline::feed_controller;
use remotelab::pipeline::paired_encoder;
use remotelab::pipeline::PathProbe;
use remotelab::pipeline::PipelinePlan;
use remotelab::pipeline::StreamingLoop;
use remotelab::pipeline::Turn;
use remotelab::platform::create_driver_manager;
use remotelab::platform::create_gpu_manager;
use remotelab::platform::get_platform_capabilities;
use remotelab::platform::initialize_platform;
use remotelab::platform::preference;
use remotelab::platform::DriverManager;
use remotelab::platform::GpuInfo;
use remotelab::platform::GpuManager;
use remotelab::platform::GpuVendor;
use remotelab::platform::OsType;
use remotelab::platform::PlatformError;
use remotelab::quality::adaptive_controller::AdaptiveBitrateController;
use remotelab::text::join;
use remotelab::transport::protocol::ConnectionConfig;
use remotelab::transport::protocol::NetworkStats;
use remotelab::transport::protocol::TransportMode;
use remotelab::transport::protocol::VideoPacket;
use remotelab::transport::session::TransportSession;

fn up(capture: bool, encoder: bool) -> PathProbe {
    PathProbe { capture_ready: capture, encoder_ready: encoder }
}

fn gpu(vendor: GpuVendor, encode: bool, nvenc: bool, nvfbc: bool) -> GpuInfo {
    GpuInfo {
        vendor,
        name: "gpu".to_string(),
        vram_mb: 8192,
        supports_hardware_encode: encode,
        supports_hardware_decode: true,
        supported_codecs: vec!["h264".to_string()],
        driver_version: "1".to_string(),
        cuda_version: None,
        supports_nvfbc: nvfbc,
        supports_nvenc: nvenc,
    }
}

#[test]
fn test_capture_fallback_scenario() {
    let plan = assemble(&[up(false, true), up(true, true), up(true, true)], TransportMode::Quic);
    assert_eq!(
        plan,
        Ok(PipelinePlan {
            capture: BackendKind::Kms,
            encoder: EncoderBackend::VAAPI,
            transport: TransportMode::Quic,
        })
    );
    let mut capture = KmsCapture::new(true, false).unwrap();
    capture
        .init(&KmsProbe {
            prime_cap: Ok(1),
            connectors: Ok(vec![ConnectorProbe {
                connector_id: 1,
                state: Ok(ConnectorState { connected: true, first_mode: None }),
            }]),
            crtc_count: Ok(1),
        })
        .unwrap();
    capture.select_framebuffer(Ok(5)).unwrap();
    let frame = capture.capture(Ok(12), 0).unwrap();
    assert_eq!(frame.dmabuf_fd(), Some(12));
    assert!(frame.gpu_ptr().is_none());
    assert!(frame.data().is_none());
    let mut encoder = match create_encoder(EncoderBackend::VAAPI, true).unwrap() {
        remotelab::encoder::Encoder::Vaapi(e) => e,
        _ => unreachable!(),
    };
    encoder.init(&EncoderConfig::default()).unwrap();
    assert_eq!(encoder.encode(&frame).unwrap().1, InputPath::Imported);
}

#[test]
fn test_assemble_pairs_and_falls_through() {
    assert_eq!(paired_encoder(BackendKind::NvFBC), EncoderBackend::NVENC);
    assert_eq!(paired_encoder(BackendKind::Kms), EncoderBackend::VAAPI);
    assert_eq!(paired_encoder(BackendKind::X11), EncoderBackend::Software);
    let all = [up(true, true), up(true, true), up(true, true)];
    assert_eq!(assemble(&all, TransportMode::SshTunnel).unwrap().capture, BackendKind::NvFBC);
    assert_eq!(assemble(&all, TransportMode::SshTunnel).unwrap().encoder, EncoderBackend::NVENC);
    assert_eq!(assemble(&all, TransportMode::SshTunnel).unwrap().transport, TransportMode::SshTunnel);
    let no_encoders = [up(true, false), up(true, false), up(true, true)];
    assert_eq!(
        assemble(&no_encoders, TransportMode::Quic).unwrap(),
        PipelinePlan {
            capture: BackendKind::X11,
            encoder: EncoderBackend::Software,
            transport: TransportMode::Quic,
        }
    );
    assert!(matches!(
        assemble(&[up(false, true), up(true, false), up(false, false)], TransportMode::Quic),
        Err(CaptureError::InitFailed(_))
    ));
    assert!(assemble(&[], TransportMode::Quic).is_err());
    assert!(assemble(&[up(false, false), up(false, false), up(false, false), up(true, true)], TransportMode::Quic).is_err());
}

#[test]
fn test_streaming_loop_turns() {
    let mut counters = StreamingLoop::new();
    let mut encoder = create_encoder(EncoderBackend::Software, false).unwrap();
    let mut config = EncoderConfig::default();
    config.width = 2;
    config.height = 2;
    encoder.init(&config).unwrap();
    let mut transport = TransportSession::new(&ConnectionConfig::default());
    transport.connect(0).unwrap();
    transport.on_connect_response(true, 1);

    let frame = |ts: u64| Ok(FrameRef::from_data(vec![1; 16], 2, 2, PixelFormat::RGBA, ts));
    let sent = counters.turn(frame(10), &mut encoder, &mut transport);
    let bytes = match sent {
        Turn::Send(bytes) => bytes,
        _ => panic!("the frame was not sent"),
    };
    let packet = VideoPacket::decode(&bytes).unwrap();
    assert_eq!(packet.seq, 0);
    assert_eq!(packet.timestamp, 10);
    assert!(packet.key_frame);

    let failed = counters.turn(
        Err(CaptureError::CaptureFailed("x".to_string())),
        &mut encoder,
        &mut transport,
    );
    assert!(matches!(failed, Turn::Dropped));
    let odd = Ok(FrameRef::from_data(vec![1; 3], 2, 2, PixelFormat::RGBA, 11));
    assert!(matches!(counters.turn(odd, &mut encoder, &mut transport), Turn::Dropped));

    let next = match counters.turn(frame(12), &mut encoder, &mut transport) {
        Turn::Send(bytes) => VideoPacket::decode(&bytes).unwrap(),
        _ => panic!("the frame was not sent"),
    };
    assert_eq!(next.seq, 1);
    assert!(!next.key_frame);
    assert_eq!(counters.frames_sent, 2);
    assert_eq!(counters.frames_dropped, 2);

    counters.cancel();
    assert!(matches!(counters.turn(frame(13), &mut encoder, &mut transport), Turn::Stop));
    assert_eq!(counters.frames_sent, 2);
    assert_eq!(counters.frames_dropped, 2);
}

#[test]
fn test_feed_controller_reconfigures_encoder() {
    let mut controller = AdaptiveBitrateController::new(20_000_000, 0);
    let mut encoder = create_encoder(EncoderBackend::NVENC, false).unwrap();
    encoder.init(&EncoderConfig::default()).unwrap();
    let frame = FrameRef::with_gpu_ptr(1920, 1080, PixelFormat::NV12, 1, 0);
    assert_eq!(encoder.encode(&frame).unwrap().seq, 0);
    let congested = NetworkStats {
        rtt_us: 200_000,
        jitter_us: 50_000,
        loss_ppm: 100_000,
        bandwidth_bps: 5_000_000,
        ..NetworkStats::default()
    };
    assert_eq!(feed_controller(&mut controller, congested, 100, &mut encoder), None);
    assert_eq!(encoder.config().bitrate, 20_000_000);
    let applied = feed_controller(&mut controller, congested, 500, &mut encoder).unwrap();
    assert_eq!(applied.bitrate, 18_000_000);
    assert_eq!(encoder.config().bitrate, 18_000_000);
    let next = encoder.encode(&frame).unwrap();
    assert_eq!(next.seq, 1);
    assert_eq!(next.bitrate, 18_000_000);
    assert_eq!(encoder.config().fps, 60);
    let again = feed_controller(&mut controller, congested, 1000, &mut encoder).unwrap();
    assert_eq!(again.fps, 30);
    assert_eq!(encoder.config().fps, 30);
    assert_eq!(encoder.config().bitrate, 12_600_000);
    encoder.set_framerate(1);
    assert_eq!(encoder.config().fps, 15);
    encoder.set_framerate(240);
    assert_eq!(encoder.config().fps, 144);
    encoder.set_framerate(90);
    assert_eq!(encoder.config().fps, 90);
    assert_eq!(encoder.encode(&frame).unwrap().seq, 2);
}

#[test]
fn test_gpu_manager_selects_best() {
    let mut manager = create_gpu_manager(vec![
        gpu(GpuVendor::Intel, true, false, false),
        gpu(GpuVendor::NVIDIA, false, true, true),
        gpu(GpuVendor::AMD, true, false, false),
        gpu(GpuVendor::NVIDIA, true, false, true),
        gpu(GpuVendor::AMD, true, false, false),
    ])
    .unwrap();
    assert_eq!(manager.list_gpus().len(), 5);
    assert!(manager.get_selected_gpu().is_none());
    assert!(!manager.supports_nvenc());
    assert_eq!(manager.select_best_gpu(), Some(4));
    assert_eq!(manager.get_selected_gpu().unwrap().vendor, GpuVendor::AMD);
    assert!(!manager.supports_nvfbc());

    let mut nvidia = GpuManager::new(vec![
        gpu(GpuVendor::AMD, true, false, false),
        gpu(GpuVendor::NVIDIA, true, true, true),
        gpu(GpuVendor::Apple, true, false, false),
    ])
    .unwrap();
    assert_eq!(nvidia.select_best_gpu(), Some(1));
    assert!(nvidia.supports_nvenc());
    assert!(nvidia.supports_nvfbc());

    let mut none = GpuManager::new(vec![gpu(GpuVendor::NVIDIA, false, true, true)]).unwrap();
    assert_eq!(none.select_best_gpu(), None);
    assert!(GpuManager::default().list_gpus().is_empty());
    assert_eq!(preference(&gpu(GpuVendor::NVIDIA, true, true, false)), 100);
    assert_eq!(preference(&gpu(GpuVendor::NVIDIA, true, false, false)), 0);
    assert_eq!(preference(&gpu(GpuVendor::AMD, true, false, false)), 50);
    assert_eq!(preference(&gpu(GpuVendor::Intel, true, false, false)), 30);
    assert_eq!(preference(&gpu(GpuVendor::Unknown, true, false, false)), 0);
}

#[test]
fn test_platform_capabilities() {
    let linux = get_platform_capabilities(OsType::Linux, false);
    assert_eq!(linux.os_type, OsType::Linux);
    assert!(linux.gpus.is_empty());
    assert!(linux.supports_dmabuf);
    assert!(!linux.supports_dxgi);
    assert!(!linux.supports_screencapturekit);
    assert!(!linux.supports_cuda);
    let windows = get_platform_capabilities(OsType::Windows, true);
    assert!(windows.supports_dxgi && windows.supports_cuda && !windows.supports_dmabuf);
    let mac = initialize_platform(OsType::MacOS, false, vec![gpu(GpuVendor::Apple, true, false, false)])
        .unwrap();
    assert!(mac.supports_screencapturekit);
    assert_eq!(mac.gpus.len(), 1);
    assert_eq!(mac.gpus[0].vendor, GpuVendor::Apple);
}

#[test]
fn test_driver_manager() {
    let manager = create_driver_manager();
    assert_eq!(manager.check_nvidia_driver(), Ok(()));
    assert_eq!(manager.check_cuda(), Ok("12.0".to_string()));
    assert_eq!(manager.load_nvfbc(), Ok(()));
    assert_eq!(manager.load_nvenc(), Ok(()));
    let bare = DriverManager { nvidia_driver: false, cuda_version: None, nvfbc: false, nvenc: false };
    assert!(matches!(bare.check_nvidia_driver(), Err(PlatformError::DriverNotSupported(_))));
    assert!(matches!(bare.check_cuda(), Err(PlatformError::DriverNotSupported(_))));
    assert!(matches!(bare.load_nvfbc(), Err(PlatformError::DriverNotSupported(_))));
    assert!(matches!(bare.load_nvenc(), Err(PlatformError::DriverNotSupported(_))));
    assert_eq!(DriverManager::default(), DriverManager::new());
}

#[test]
fn test_platform_error_messages() {
    assert_eq!(PlatformError::GpuNotFound.to_string(), "GPU not found");
    assert_eq!(
        PlatformError::GpuInitFailed("a".to_string()).to_string(),
        "GPU initialization failed: a"
    );
    assert_eq!(
        PlatformError::DriverNotSupported("b".to_string()).to_string(),
        "Driver not supported: b"
    );
    assert_eq!(PlatformError::PermissionDenied("c".to_string()).to_string(), "Permission denied: c");
    assert_eq!(
        PlatformError::PlatformNotSupported("d".to_string()).to_string(),
        "Platform not supported: d"
    );
    assert_eq!(join("ab", "cd"), "abcd");
    assert_eq!(join("", ""), "");
}
