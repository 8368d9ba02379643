use remotelab::capture::FrameRef;
use remotelab::capture::PixelFormat;
use remotelab::encoder::amf::AmfEncoder;
use remotelab::encoder::create_encoder;
use remotelab::encoder::detect_best_backend;
use remotelab::encoder::detect_best_encoder;
use remotelab::encoder::input_path;
use remotelab::encoder::nvenc_lowlatency::peak_bitrate;
use remotelab::encoder::nvenc_lowlatency::LowLatencyNvenc;
use remotelab::encoder::nvenc_lowlatency::NV_ENC_CONFIG;
use remotelab::encoder::nvenc_lowlatency::NV_ENC_RC_PARAMS;
use remotelab::encoder::software::convert_nv12_to_i420;
use remotelab::encoder::software::convert_rgba_to_i420;
use remotelab::encoder::software::downsample_p010;
use remotelab::encoder::software::estimated_size;
use remotelab::encoder::software::quantizer;
use remotelab::encoder::software::SoftwareEncoder;
use remotelab::encoder::software::SoftwareEncoderBuilder;
use remotelab::encoder::vaapi::enumerate_vaapi_devices;
use remotelab::encoder::vaapi::is_vaapi_available;
use remotelab::encoder::vaapi::VaapiEncoder;
use remotelab::encoder::Encoder;
use remotelab::encoder::EncoderBackend;
use remotelab::encoder::EncoderConfig;
use remotelab::encoder::EncoderError;
use remotelab::encoder::EncodingHints;
use remotelab::encoder::EncodingStrategy;
use remotelab::encoder::FrameType;
use remotelab::encoder::GpuCapabilities;
use remotelab::encoder::InputPath;
use remotelab::encoder::QualityPreset as Preset;
use remotelab::encoder::RateControlMode;
use remotelab::encoder::Tuning;
use remotelab::encoder::VideoCodec as CodecType;

fn config(width: u32, height: u32, fps: u32, bitrate: u32, gop_length: u32) -> EncoderConfig {
    EncoderConfig {
        width,
        height,
        fps,
        bitrate,
        codec: CodecType::H264,
        preset: Preset::P1,
        tuning: Tuning::LowLatency,
        gop_length,
        bframes: 0,
        rc_mode: RateControlMode::CBR,
    }
}

fn gpu(nvenc: bool, amf: bool, vaapi: bool, quicksync: bool) -> GpuCapabilities {
    GpuCapabilities {
        name: "gpu".to_string(),
        has_nvenc: nvenc,
        has_amf: amf,
        has_vaapi: vaapi,
        has_quicksync: quicksync,
    }
}

#[test]
fn test_codec_type_display() {
    assert_eq!(format!("{}", CodecType::H264.to_string()), "H264");
    assert_eq!(format!("{}", CodecType::HEVC.to_string()), "HEVC");
    assert_eq!(format!("{}", CodecType::AV1.to_string()), "AV1");
}

#[test]
fn test_codec_mime_type() {
    assert_eq!(CodecType::H264.mime_type(), "video/h264");
    assert_eq!(CodecType::HEVC.mime_type(), "video/hevc");
    assert_eq!(CodecType::AV1.mime_type(), "video/av1");
}

#[test]
fn test_frame_type_is_keyframe() {
    assert!(FrameType::IDR.is_keyframe());
    assert!(FrameType::I.is_keyframe());
    assert!(!FrameType::P.is_keyframe());
    assert!(!FrameType::B.is_keyframe());
}

#[test]
fn test_preset_to_nvenc() {
    assert_eq!(Preset::P1.to_nvenc_preset(), 1);
    assert_eq!(Preset::P4.to_nvenc_preset(), 4);
    assert_eq!(Preset::P7.to_nvenc_preset(), 7);
}

#[test]
fn test_encoder_config_default() {
    let config = EncoderConfig::default();
    assert_eq!(config.width, 1920);
    assert_eq!(config.height, 1080);
    assert_eq!(config.fps, 60);
    assert_eq!(config.bitrate, 20_000_000);
    assert_eq!(config.codec, CodecType::H264);
    assert_eq!(config.bframes, 0);
    assert_eq!(config.gop_length, 0);
}

#[test]
fn test_encoder_config_validity_and_bframes() {
    assert!(EncoderConfig::default().is_valid());
    assert!(config(1, 1, 1, 0, 0).is_valid());
    assert!(config(1, 1, 240, 0, 0).is_valid());
    assert!(!config(1, 1, 241, 0, 0).is_valid());
    assert!(!config(1, 1, 0, 0, 0).is_valid());
    assert!(!config(0, 1, 60, 0, 0).is_valid());
    assert!(!config(1, 0, 60, 0, 0).is_valid());
    let mut with_bframes = EncoderConfig::default();
    with_bframes.bframes = 3;
    assert_eq!(with_bframes.effective_bframes(), 0);
    with_bframes.tuning = Tuning::Balanced;
    assert_eq!(with_bframes.effective_bframes(), 0);
    with_bframes.tuning = Tuning::Quality;
    assert_eq!(with_bframes.effective_bframes(), 3);
}

#[test]
fn test_encoding_hints_default() {
    let hints = EncodingHints::default();
    assert_eq!(hints.target_bitrate, 10_000_000);
    assert_eq!(hints.target_framerate, 60);
    assert_eq!(hints.max_qp, 51);
    assert!(!hints.enable_fec);
    assert_eq!(hints.fec_permille, 0);
    assert_eq!(hints.scale_resolution, None);
    assert_eq!(hints.strategy, EncodingStrategy::MinLatency);
    assert!(!hints.force_idr);
}

#[test]
fn test_frame_ref_from_data() {
    let data = vec![0u8; 1920 * 1080 * 4];
    let frame = FrameRef::from_data(data.clone(), 1920, 1080, PixelFormat::RGBA, 0);

    assert_eq!(frame.width(), 1920);
    assert_eq!(frame.height(), 1080);
    assert_eq!(frame.format(), PixelFormat::RGBA);
    assert!(frame.data().is_some());
    assert!(frame.gpu_ptr().is_none());
    assert!(frame.dmabuf_fd().is_none());
}

#[test]
fn test_frame_ref_from_dmabuf() {
    let frame = FrameRef::from_dmabuf(42, 1920, 1080, PixelFormat::NV12, 0);

    assert_eq!(frame.width(), 1920);
    assert_eq!(frame.height(), 1080);
    assert_eq!(frame.format(), PixelFormat::NV12);
    assert!(frame.data().is_none());
    assert!(frame.dmabuf_fd().is_some());
    assert_eq!(frame.dmabuf_fd().unwrap(), 42);
}

#[test]
fn test_software_encoder_init() {
    let mut encoder = SoftwareEncoder::new();
    let config = config(1280, 720, 30, 5_000_000, 30);

    assert!(encoder.init(&config).is_ok());
    assert_eq!(encoder.name(), "Software-x264");
}

#[test]
fn test_software_encoder_invalid_resolution() {
    let mut encoder = SoftwareEncoder::new();
    let config = EncoderConfig {
        width: 0,
        height: 1080,
        fps: 60,
        bitrate: 20_000_000,
        codec: CodecType::H264,
        preset: Preset::default(),
        tuning: Tuning::default(),
        gop_length: 0,
        bframes: 0,
        rc_mode: RateControlMode::CBR,
    };

    assert!(encoder.init(&config).is_err());
}

#[test]
fn test_software_encoder_init_errors() {
    let mut encoder = SoftwareEncoder::new();
    assert_eq!(
        encoder.init(&config(0, 1080, 60, 1, 0)),
        Err(EncoderError::InvalidConfig(
            "Invalid resolution: width and height must be > 0".to_string()
        ))
    );
    assert_eq!(
        encoder.init(&config(1920, 1080, 0, 1, 0)),
        Err(EncoderError::InvalidConfig("Invalid framerate: fps must be > 0".to_string()))
    );
    assert_eq!(
        encoder.init(&config(1920, 1080, 241, 1, 0)),
        Err(EncoderError::InvalidConfig("Invalid framerate: fps must be at most 240".to_string()))
    );
    assert_eq!(encoder.init(&config(1920, 1080, 60, 1, 0)), Ok(()));
    assert_eq!(
        encoder.init(&config(1920, 1080, 60, 1, 0)),
        Err(EncoderError::InvalidConfig("Encoder already initialized".to_string()))
    );
}

#[test]
fn test_software_encoder_encode() {
    let mut encoder = SoftwareEncoder::new();
    let config = config(640, 480, 30, 2_000_000, 30);

    encoder.init(&config).unwrap();

    let frame_data = vec![128u8; 640 * 480 * 4];
    let frame = FrameRef::from_data(frame_data, 640, 480, PixelFormat::RGBA, 1);

    let result = encoder.encode(&frame);
    assert!(result.is_ok());

    let encoded = result.unwrap();
    assert_eq!(encoded.width, 640);
    assert_eq!(encoded.height, 480);
    assert_eq!(encoded.codec, CodecType::H264);
    assert!(encoded.key_frame);
}

#[test]
fn test_software_encoder_keyframe_pattern() {
    let mut encoder = SoftwareEncoder::new();
    let config = config(640, 480, 30, 2_000_000, 5);

    encoder.init(&config).unwrap();

    let frame_data = vec![128u8; 640 * 480 * 4];

    for i in 0..10 {
        let frame = FrameRef::from_data(frame_data.clone(), 640, 480, PixelFormat::RGBA, i);
        let encoded = encoder.encode(&frame).unwrap();

        if i % 5 == 0 {
            assert!(encoded.key_frame, "Frame {} should be keyframe", i);
        } else {
            assert!(!encoded.key_frame, "Frame {} should not be keyframe", i);
        }
    }
    assert_eq!(encoder.get_stats().frames_encoded, 10);
    assert_eq!(encoder.get_stats().keyframes_encoded, 2);
}

#[test]
fn test_software_encoder_set_bitrate() {
    let mut encoder = SoftwareEncoder::new();
    let config = EncoderConfig::default();
    encoder.init(&config).unwrap();

    encoder.set_bitrate(10_000_000);
    assert_eq!(encoder.config().bitrate, 10_000_000);
}

#[test]
fn test_software_encoder_flush() {
    let mut encoder = SoftwareEncoder::new();
    let config = EncoderConfig::default();
    encoder.init(&config).unwrap();

    let result = encoder.flush();
    assert!(result.is_ok());
    assert!(result.unwrap().is_empty());
}

#[test]
fn test_nvenc_encoder_creation() {
    let encoder = create_encoder(EncoderBackend::NVENC, false);
    assert!(encoder.is_ok());
}

#[test]
fn test_nvenc_encoder_init() {
    let mut encoder = LowLatencyNvenc::new();
    let config = config(1920, 1080, 60, 20_000_000, 0);

    assert!(encoder.init(&config).is_ok());
    assert_eq!(encoder.name(), "NVENC-LowLatency");
}

#[test]
fn test_nvenc_low_latency_parameters() {
    let mut encoder = LowLatencyNvenc::new();
    let (init, low_latency) = encoder.init(&config(1920, 1080, 60, 20_000_000, 30)).unwrap();
    assert_eq!(init.encodeWidth, 1920);
    assert_eq!(init.encodeHeight, 1080);
    assert_eq!(init.frameRateNum, 60);
    assert_eq!(init.frameRateDen, 1);
    assert_eq!(init.enablePTD, 1);
    assert_eq!(init.tuningInfo, 1);
    assert_eq!(low_latency.gopLength, 0xFFFF_FFFF);
    assert_eq!(low_latency.frameIntervalP, 1);
    assert_eq!(low_latency.rcParams.rateControlMode, 0);
    assert_eq!(low_latency.rcParams.averageBitRate, 20_000_000);
    assert_eq!(low_latency.rcParams.maxBitRate, 24_000_000);
    assert_eq!(low_latency.rcParams.vbvBufferSize, 333_333);
    assert_eq!(low_latency.rcParams.vbvInitialDelay, 166_666);

    let mut target = NV_ENC_CONFIG {
        version: 9,
        gopLength: 1,
        frameIntervalP: 3,
        rcParams: NV_ENC_RC_PARAMS {
            version: 4,
            rateControlMode: 7,
            averageBitRate: 0,
            maxBitRate: 0,
            vbvBufferSize: 0,
            vbvInitialDelay: 0,
        },
    };
    encoder.setup_low_latency_config(&mut target);
    assert_eq!(target.version, 9);
    assert_eq!(target.rcParams.version, 4);
    assert_eq!(target.rcParams.vbvBufferSize, 333_333);
    assert_eq!(peak_bitrate(u32::MAX), u32::MAX);
    assert_eq!(peak_bitrate(5), 6);

    let reconfigure = encoder.set_bitrate(10_000_000);
    assert_eq!(reconfigure.averageBitRate, 10_000_000);
    assert_eq!(reconfigure.maxBitRate, 12_000_000);
    assert_eq!(encoder.config().bitrate, 10_000_000);
}

#[test]
fn test_nvenc_double_init_fails() {
    let mut encoder = LowLatencyNvenc::new();
    let config = EncoderConfig::default();

    encoder.init(&config).unwrap();
    assert!(encoder.init(&config).is_err());
    assert_eq!(
        encoder.init(&config).err(),
        Some(EncoderError::InvalidConfig("Encoder already initialized".to_string()))
    );
}

#[test]
fn test_nvenc_encode_without_init_fails() {
    let mut encoder = LowLatencyNvenc::new();
    let frame_data = vec![0u8; 1920 * 1080 * 4];
    let frame = FrameRef::from_data(frame_data, 1920, 1080, PixelFormat::RGBA, 0);

    assert!(encoder.encode(&frame).is_err());
    assert_eq!(
        encoder.encode(&frame).err(),
        Some(EncoderError::EncodeFailed("Encoder not initialized".to_string()))
    );
}

#[test]
fn test_nvenc_input_paths_and_sizes() {
    let mut encoder = LowLatencyNvenc::new();
    encoder.init(&config(100, 50, 60, 1_000_000, 0)).unwrap();
    let gpu = FrameRef::with_gpu_ptr(100, 50, PixelFormat::NV12, 0x10, 5);
    let (first, path) = encoder.encode(&gpu).unwrap();
    assert_eq!(path, InputPath::Registered);
    assert!(first.key_frame);
    assert_eq!(first.data.len(), 500);
    assert_eq!(first.pts, 5);
    assert_eq!(first.dts, 5);
    assert_eq!(first.seq, 0);
    assert!(first.data.iter().all(|b| *b == 0));
    let dmabuf = FrameRef::with_dmabuf(100, 50, PixelFormat::NV12, 3, 6);
    let (second, path) = encoder.encode(&dmabuf).unwrap();
    assert_eq!(path, InputPath::Imported);
    assert!(!second.key_frame);
    assert_eq!(second.data.len(), 100);
    assert_eq!(second.seq, 1);
    let host = FrameRef::from_data(vec![0; 8], 100, 50, PixelFormat::NV12, 7);
    let (_, path) = encoder.encode(&host).unwrap();
    assert_eq!(path, InputPath::Uploaded);
    assert_eq!(input_path(&host), InputPath::Uploaded);
}

#[test]
fn test_amf_encoder_creation() {
    let _encoder = AmfEncoder::new(false);
    assert_eq!(AmfEncoder::new(false).err(), Some(EncoderError::HardwareUnavailable));
    assert!(AmfEncoder::new(true).is_ok());
}

#[test]
fn test_amf_encoder_name() {
    if let Ok(encoder) = AmfEncoder::new(true) {
        assert_eq!(encoder.name(), "AMF");
    }
}

#[test]
fn test_amf_encoder_components() {
    let mut encoder = AmfEncoder::new(true).unwrap();
    assert_eq!(encoder.create_encoder_component(CodecType::H264), Ok("AMFVideoEncoderVCE_AVC"));
    assert_eq!(encoder.create_encoder_component(CodecType::HEVC), Ok("AMFVideoEncoderHEVC"));
    let mut av1 = EncoderConfig::default();
    av1.codec = CodecType::AV1;
    assert_eq!(
        encoder.init(&av1),
        Err(EncoderError::InvalidConfig("AMF AV1 not yet implemented".to_string()))
    );
    assert_eq!(encoder.convert_format(PixelFormat::NV12), 0);
    assert_eq!(encoder.convert_format(PixelFormat::YUV420), 1);
    assert_eq!(encoder.convert_format(PixelFormat::RGBA), 2);
    assert_eq!(encoder.convert_format(PixelFormat::BGRA), 3);
    assert_eq!(encoder.convert_format(PixelFormat::P010), 4);
    assert_eq!(encoder.init(&config(80, 10, 30, 1, 0)), Ok("AMFVideoEncoderVCE_AVC"));
    let frame = FrameRef::with_gpu_ptr(80, 10, PixelFormat::NV12, 1, 0);
    assert_eq!(encoder.encode(&frame).unwrap().0.data.len(), 100);
    assert_eq!(encoder.encode(&frame).unwrap().0.data.len(), 20);
}

#[test]
fn test_vaapi_enumerate_devices() {
    let devices = enumerate_vaapi_devices(&[true, false, true]);
    assert!(devices.is_empty() || devices.iter().all(|d| d.starts_with("/dev/dri/")));
    assert_eq!(devices, vec!["/dev/dri/renderD128".to_string(), "/dev/dri/renderD130".to_string()]);
    assert!(enumerate_vaapi_devices(&[]).is_empty());
    let all = enumerate_vaapi_devices(&[true; 12]);
    assert_eq!(all.len(), 10);
    assert_eq!(all[9], "/dev/dri/renderD137");
    assert!(is_vaapi_available(&[false, true]));
    assert!(!is_vaapi_available(&[false, false]));
}

#[test]
fn test_vaapi_encoder_with_invalid_device() {
    let result = VaapiEncoder::with_device("/dev/nonexistent", false);
    assert!(result.is_err());
    assert_eq!(result.err(), Some(EncoderError::HardwareUnavailable));
}

#[test]
fn test_vaapi_profiles_and_formats() {
    let mut encoder = VaapiEncoder::new(true).unwrap();
    assert_eq!(encoder.find_va_profile(CodecType::H264), Ok(3));
    assert_eq!(encoder.find_va_profile(CodecType::HEVC), Ok(17));
    assert_eq!(
        encoder.find_va_profile(CodecType::AV1),
        Err(EncoderError::InvalidConfig("VAAPI AV1 not yet implemented".to_string()))
    );
    assert_eq!(encoder.convert_format(PixelFormat::NV12), 0x3231564E);
    assert_eq!(encoder.convert_format(PixelFormat::YUV420), 0x3231564E);
    assert_eq!(encoder.convert_format(PixelFormat::P010), 0x3231564E);
    assert_eq!(encoder.convert_format(PixelFormat::RGBA), 0x41424752);
    assert_eq!(encoder.convert_format(PixelFormat::BGRA), 0x41424752);
    assert_eq!(encoder.rate_control(), 2);
    let mut vbr = config(64, 64, 30, 1, 0);
    vbr.rc_mode = RateControlMode::VBR;
    encoder.init(&vbr).unwrap();
    assert_eq!(encoder.rate_control(), 4);
    let frame = FrameRef::with_dmabuf(64, 64, PixelFormat::NV12, 5, 0);
    let (encoded, path) = encoder.encode(&frame).unwrap();
    assert_eq!(path, InputPath::Imported);
    assert_eq!(encoded.data.len(), 512);
    assert_eq!(encoder.name(), "VAAPI");
}

#[test]
fn test_detect_best_encoder() {
    let encoder = detect_best_encoder(None, false);
    let name = encoder.name();
    assert!(
        name == "NVENC-LowLatency" || name == "AMF" || name == "VAAPI" || name == "Software-x264"
    );
    assert_eq!(name, "Software-x264");
    assert_eq!(detect_best_encoder(Some(&gpu(true, true, true, true)), false).name(), "NVENC-LowLatency");
    assert_eq!(detect_best_encoder(Some(&gpu(false, true, true, true)), true).name(), "AMF");
    assert_eq!(detect_best_encoder(Some(&gpu(false, true, true, true)), false).name(), "Software-x264");
    assert_eq!(detect_best_encoder(Some(&gpu(false, false, true, false)), true).name(), "VAAPI");
    assert_eq!(detect_best_encoder(Some(&gpu(false, false, false, true)), true).name(), "VAAPI");
    assert_eq!(detect_best_encoder(Some(&gpu(false, false, false, false)), true).name(), "Software-x264");
    assert_eq!(detect_best_backend(Some(&gpu(false, false, false, true))), EncoderBackend::VAAPI);
}

#[test]
fn test_create_encoder_backends() {
    let nvenc = create_encoder(EncoderBackend::NVENC, false);
    let amf = create_encoder(EncoderBackend::AMF, false);
    let vaapi = create_encoder(EncoderBackend::VAAPI, false);
    let software = create_encoder(EncoderBackend::Software, false);

    assert!(software.is_ok());
    assert_eq!(software.unwrap().name(), "Software-x264");

    assert!(nvenc.is_ok());
    assert!(matches!(amf, Err(EncoderError::HardwareUnavailable)));
    assert!(matches!(vaapi, Err(EncoderError::HardwareUnavailable)));
    assert_eq!(create_encoder(EncoderBackend::AMF, true).unwrap().name(), "AMF");
    assert_eq!(create_encoder(EncoderBackend::VAAPI, true).unwrap().name(), "VAAPI");
}

#[test]
fn test_encode_pipeline() {
    let mut encoder = SoftwareEncoder::new();
    let config = config(1280, 720, 60, 8_000_000, 60);

    encoder.init(&config).unwrap();

    let mut total_encoded_size = 0usize;
    let mut keyframe_count = 0;

    for i in 0..120 {
        let frame_data = vec![(i % 256) as u8; 1280 * 720 * 4];
        let frame = FrameRef::from_data(frame_data, 1280, 720, PixelFormat::RGBA, i as u64);

        let encoded = encoder.encode(&frame).unwrap();
        total_encoded_size += encoded.data.len();

        if encoded.key_frame {
            keyframe_count += 1;
        }

        assert_eq!(encoded.width, 1280);
        assert_eq!(encoded.height, 720);
        assert_eq!(encoded.codec, CodecType::H264);
        assert_eq!(encoded.seq, i as u32);
    }

    assert!(keyframe_count >= 1 && keyframe_count <= 3);
    assert_eq!(keyframe_count, 2);

    let raw_size = 1280 * 720 * 4 * 120;
    assert!(total_encoded_size < raw_size / 4, "Compression ratio too low");
    assert_eq!(total_encoded_size, 120 * 62_502);
}

#[test]
fn test_dynamic_bitrate_adjustment() {
    let mut encoder = SoftwareEncoder::new();
    let config = EncoderConfig::default();
    encoder.init(&config).unwrap();

    let frame_data = vec![128u8; 1920 * 1080 * 4];
    let frame1 = FrameRef::from_data(frame_data.clone(), 1920, 1080, PixelFormat::RGBA, 1);
    let encoded1 = encoder.encode(&frame1).unwrap();

    encoder.set_bitrate(5_000_000);

    let frame2 = FrameRef::from_data(frame_data, 1920, 1080, PixelFormat::RGBA, 2);
    let encoded2 = encoder.encode(&frame2).unwrap();

    assert_eq!(encoded1.bitrate, 20_000_000);
    assert_eq!(encoded2.bitrate, 5_000_000);
    assert_eq!(encoded1.seq + 1, encoded2.seq);
}

#[test]
fn test_all_pixel_formats() {
    let mut encoder = SoftwareEncoder::new();
    let config = config(640, 480, 30, 2_000_000, 30);
    encoder.init(&config).unwrap();

    let formats = vec![
        (PixelFormat::NV12, 640 * 480 * 3 / 2),
        (PixelFormat::YUV420, 640 * 480 * 3 / 2),
        (PixelFormat::RGBA, 640 * 480 * 4),
        (PixelFormat::BGRA, 640 * 480 * 4),
    ];

    for (format, size) in formats {
        let frame_data = vec![128u8; size];
        let frame = FrameRef::from_data(frame_data, 640, 480, format, 0);
        let result = encoder.encode(&frame);
        assert!(result.is_ok(), "Failed to encode {:?}", format);
    }
}

#[test]
fn test_encoded_frame_properties() {
    let mut encoder = SoftwareEncoder::new();
    encoder.init(&EncoderConfig::default()).unwrap();

    let frame_data = vec![0u8; 1920 * 1080 * 4];
    let frame = FrameRef::from_data(frame_data, 1920, 1080, PixelFormat::RGBA, 1);

    let encoded = encoder.encode(&frame).unwrap();

    assert!(!encoded.data.is_empty());
    assert_eq!(encoded.width, 1920);
    assert_eq!(encoded.height, 1080);
    assert!(encoded.pts > 0);
    assert!(encoded.dts > 0);
}

#[test]
fn test_encoded_frame_shares_its_payload() {
    let mut encoder = LowLatencyNvenc::new();
    encoder.init(&config(100, 50, 60, 1_000_000, 0)).unwrap();
    let frame = FrameRef::with_gpu_ptr(100, 50, PixelFormat::NV12, 1, 9);
    let (encoded, _) = encoder.encode(&frame).unwrap();
    let copy = encoded.clone();
    assert_eq!(copy.data, encoded.data);
    assert_eq!(copy.data.len(), 500);
    assert_eq!(copy.seq, encoded.seq);
    assert_eq!(copy.pts, 9);
    assert_eq!(copy.data.as_ptr(), encoded.data.as_ptr());
}

#[test]
fn test_software_encoder_refusals() {
    let mut encoder = SoftwareEncoder::new();
    let host = FrameRef::from_data(vec![0; 64], 4, 4, PixelFormat::RGBA, 0);
    assert_eq!(
        encoder.encode(&host).err(),
        Some(EncoderError::EncodeFailed("Encoder not initialized".to_string()))
    );
    encoder.init(&config(4, 4, 30, 1_000, 0)).unwrap();
    let gpu = FrameRef::with_gpu_ptr(4, 4, PixelFormat::RGBA, 1, 0);
    assert_eq!(
        encoder.encode(&gpu).err(),
        Some(EncoderError::EncodeFailed("Software encoder requires CPU frame data".to_string()))
    );
    let short = FrameRef::from_data(vec![0; 63], 4, 4, PixelFormat::RGBA, 0);
    assert_eq!(
        encoder.encode(&short).err(),
        Some(EncoderError::EncodeFailed("Frame data does not hold the picture".to_string()))
    );
    assert_eq!(encoder.get_stats().frames_encoded, 0);
    let encoded = encoder.encode(&host).unwrap();
    assert_eq!(encoded.seq, 0);
    assert!(!encoder.is_hardware());
    assert_eq!(encoder.shutdown(), Ok(()));
}

#[test]
fn test_forced_idr_at_frame_137() {
    let mut encoder = SoftwareEncoder::new();
    encoder.init(&config(4, 4, 60, 1_000_000, 0)).unwrap();
    let mut last_seq = None;
    for i in 0..137u64 {
        let frame = FrameRef::from_data(vec![0; 64], 4, 4, PixelFormat::RGBA, 1000 + i);
        let encoded = encoder.encode(&frame).unwrap();
        assert_eq!(encoded.key_frame, i == 0);
        if let Some(prev) = last_seq {
            assert_eq!(encoded.seq, prev + 1);
        }
        last_seq = Some(encoded.seq);
    }
    encoder.request_idr();
    let frame = FrameRef::from_data(vec![0; 64], 4, 4, PixelFormat::RGBA, 2000);
    let forced = encoder.encode(&frame).unwrap();
    assert!(forced.key_frame);
    assert_eq!(forced.seq, last_seq.unwrap() + 1);
    assert_eq!(forced.pts, 2000);
    let frame = FrameRef::from_data(vec![0; 64], 4, 4, PixelFormat::RGBA, 2001);
    let after = encoder.encode(&frame).unwrap();
    assert!(!after.key_frame);
    assert_eq!(after.seq, forced.seq + 1);
}

#[test]
fn test_set_bitrate_drops_no_frame() {
    for backend in [EncoderBackend::NVENC, EncoderBackend::AMF, EncoderBackend::VAAPI, EncoderBackend::Software] {
        let mut encoder: Encoder = create_encoder(backend, true).unwrap();
        encoder.init(&config(4, 4, 60, 3_000_000, 0)).unwrap();
        let frame = FrameRef::from_data(vec![0; 64], 4, 4, PixelFormat::RGBA, 1);
        let first = encoder.encode(&frame).unwrap();
        assert_eq!(first.bitrate, 3_000_000);
        encoder.set_bitrate(7_000_000);
        assert_eq!(encoder.config().bitrate, 7_000_000);
        let second = encoder.encode(&frame).unwrap();
        assert_eq!(second.bitrate, 7_000_000);
        assert_eq!(second.seq, first.seq + 1);
        let third = encoder.encode(&frame).unwrap();
        assert_eq!(third.bitrate, 7_000_000);
        assert_eq!(third.seq, first.seq + 2);
        assert!(encoder.flush().unwrap().is_empty());
        encoder.request_idr();
        assert!(encoder.encode(&frame).unwrap().key_frame);
    }
}

#[test]
fn test_encoder_rejects_av1_where_unsupported() {
    let mut av1 = config(4, 4, 60, 1, 0);
    av1.codec = CodecType::AV1;
    assert!(create_encoder(EncoderBackend::NVENC, true).unwrap().init(&av1).is_ok());
    assert!(create_encoder(EncoderBackend::Software, true).unwrap().init(&av1).is_ok());
    assert!(matches!(
        create_encoder(EncoderBackend::AMF, true).unwrap().init(&av1),
        Err(EncoderError::InvalidConfig(_))
    ));
    assert!(matches!(
        create_encoder(EncoderBackend::VAAPI, true).unwrap().init(&av1),
        Err(EncoderError::InvalidConfig(_))
    ));
}

#[test]
fn test_nv12_to_i420_conversion() {
    let width = 1920u32;
    let height = 1080u32;
    let y_size = (width * height) as usize;
    let uv_size = y_size / 2;

    let mut nv12 = vec![0u8; y_size + uv_size];
    for i in 0..y_size {
        nv12[i] = (i % 256) as u8;
    }
    for i in 0..uv_size {
        nv12[y_size + i] = (i % 256) as u8;
    }

    let i420 = convert_nv12_to_i420(&nv12, width, height).unwrap();

    assert_eq!(i420.len(), y_size + uv_size);
    assert_eq!(&i420[0..y_size], &nv12[0..y_size]);
}

#[test]
fn test_nv12_to_i420_planes() {
    let nv12 = vec![1, 2, 3, 4, 5, 6, 7, 8, 10, 20, 11, 21];
    assert_eq!(
        convert_nv12_to_i420(&nv12, 4, 2),
        Some(vec![1, 2, 3, 4, 5, 6, 7, 8, 10, 11, 20, 21])
    );
    assert_eq!(convert_nv12_to_i420(&nv12[..11], 4, 2), None);
    assert_eq!(convert_nv12_to_i420(&[1, 2, 3, 9], 3, 1), Some(vec![1, 2, 3, 0]));
    assert_eq!(convert_nv12_to_i420(&[], 0, 5), Some(vec![]));
}

#[test]
fn test_rgba_to_i420_values() {
    let white = [255u8, 255, 255, 255];
    let black = [0u8, 0, 0, 255];
    let red = [255u8, 0, 0, 255];
    let blue = [0u8, 0, 255, 255];
    let mut rgba = Vec::new();
    rgba.extend_from_slice(&red);
    rgba.extend_from_slice(&white);
    rgba.extend_from_slice(&black);
    rgba.extend_from_slice(&blue);
    let i420 = convert_rgba_to_i420(&rgba, 2, 2).unwrap();
    assert_eq!(i420, vec![81, 235, 16, 40, 90, 239]);
    assert_eq!(convert_rgba_to_i420(&rgba, 1, 2), None);
    assert_eq!(convert_rgba_to_i420(&rgba[..15], 2, 2), None);
    assert_eq!(convert_rgba_to_i420(&[], 0, 0), Some(vec![]));

    let mut wide = Vec::new();
    for _ in 0..2 {
        wide.extend_from_slice(&black);
        wide.extend_from_slice(&black);
        wide.extend_from_slice(&blue);
        wide.extend_from_slice(&black);
    }
    let planar = convert_rgba_to_i420(&wide, 4, 2).unwrap();
    assert_eq!(planar.len(), 8 + 4);
    assert_eq!(&planar[8..], &[128, 239, 128, 109]);
}

#[test]
fn test_p010_downsample() {
    assert_eq!(downsample_p010(&[1, 2, 3, 4, 5]), vec![1, 3, 5]);
    assert_eq!(downsample_p010(&[1, 2, 3, 4]), vec![1, 3]);
    assert_eq!(downsample_p010(&[]), Vec::<u8>::new());
}

#[test]
fn test_quantizer_and_estimated_size() {
    assert_eq!(quantizer(20_000_000, 1920, 1080, 60), 18);
    assert_eq!(quantizer(0, 1920, 1080, 60), 51);
    assert_eq!(quantizer(1, 1920, 1080, 60), 50);
    assert_eq!(quantizer(1_244_160, 1920, 1080, 60), 41);
    assert_eq!(quantizer(1_244_161, 1920, 1080, 60), 40);
    assert_eq!(quantizer(u32::MAX, 1, 1, 1), 18);
    assert_eq!(estimated_size(1_382_400, CodecType::H264, 18), 62_502);
    assert_eq!(estimated_size(1_382_400, CodecType::HEVC, 51), 19_200);
    assert_eq!(estimated_size(1_382_400, CodecType::AV1, 0), 86_400);
    assert_eq!(estimated_size(10, CodecType::H264, 18), 100);
}

#[test]
fn test_software_encoder_builder() {
    let encoder = SoftwareEncoderBuilder::new()
        .resolution(1280, 720)
        .fps(30)
        .bitrate(4_000_000)
        .codec(CodecType::HEVC)
        .preset(Preset::P3)
        .build()
        .unwrap();
    let built = encoder.config();
    assert_eq!(built.width, 1280);
    assert_eq!(built.height, 720);
    assert_eq!(built.fps, 30);
    assert_eq!(built.bitrate, 4_000_000);
    assert_eq!(built.codec, CodecType::HEVC);
    assert_eq!(built.preset, Preset::P3);
    assert_eq!(built.gop_length, 0);
    assert!(SoftwareEncoderBuilder::new().fps(0).build().is_err());
    assert!(SoftwareEncoderBuilder::default().build().is_ok());
    assert_eq!(SoftwareEncoder::preset_to_x264_preset(Preset::P1), "ultrafast");
    assert_eq!(SoftwareEncoder::preset_to_x264_preset(Preset::P6), "medium");
    assert_eq!(SoftwareEncoder::preset_to_x265_preset(Preset::P7), "slow");
    assert_eq!(SoftwareEncoder::tuning_to_x264_tune(Tuning::LowLatency), "zerolatency");
    assert_eq!(SoftwareEncoder::tuning_to_x264_tune(Tuning::Quality), "film");
    assert_eq!(SoftwareEncoder::tuning_to_x264_tune(Tuning::Balanced), "");
    assert_eq!(encoder.create_software_context().preset, 2);
}
