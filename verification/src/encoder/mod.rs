//! Encoder sessions: configuration, the sequencing of encoded frames and the
//! choice among the hardware encoders and the software fallback.

pub mod amf;
pub mod nvenc_lowlatency;
pub mod software;
pub mod vaapi;

use crate::capture::FrameRef;
use crate::capture::PixelFormat;
use crate::capture::Surface;
use crate::encoder::amf::AmfEncoder;
use crate::encoder::nvenc_lowlatency::LowLatencyNvenc;
use crate::encoder::software::SoftwareEncoder;
use crate::encoder::vaapi::VaapiEncoder;
use crate::transport::wire::shared_bytes;
use crate::transport::wire::shared_from_vec;
use vstd::prelude::*;

verus! {

/// The codec of an encoded stream.
#[derive(Debug, Clone, Copy, PartialEq, Eq, Structural)]
pub enum VideoCodec {
    /// H.264, the most widely supported.
    H264,
    /// HEVC, with the better compression.
    HEVC,
    /// AV1.
    AV1,
}

impl VideoCodec {
    /// The MIME type of the codec.
    pub open spec fn spec_mime_type(self) -> Seq<char> {
        match self {
            VideoCodec::H264 => "video/h264"@,
            VideoCodec::HEVC => "video/hevc"@,
            VideoCodec::AV1 => "video/av1"@,
        }
    }

    /// The MIME type of the codec.
    pub fn mime_type(&self) -> (mime: &'static str)
        ensures
            mime@ == self.spec_mime_type(),
    {
        match self {
            VideoCodec::H264 => "video/h264",
            VideoCodec::HEVC => "video/hevc",
            VideoCodec::AV1 => "video/av1",
        }
    }

    /// The name of the codec.
    pub open spec fn spec_name(self) -> Seq<char> {
        match self {
            VideoCodec::H264 => "H264"@,
            VideoCodec::HEVC => "HEVC"@,
            VideoCodec::AV1 => "AV1"@,
        }
    }

    /// The name of the codec.
    pub fn to_string(&self) -> (name: String)
        ensures
            name@ == self.spec_name(),
    {
        match self {
            VideoCodec::H264 => "H264".to_string(),
            VideoCodec::HEVC => "HEVC".to_string(),
            VideoCodec::AV1 => "AV1".to_string(),
        }
    }
}

/// The kind of an encoded picture.
#[derive(Debug, Clone, Copy, PartialEq, Eq, Structural)]
pub enum FrameType {
    /// A picture that resets the decoder.
    IDR,
    /// A picture coded without reference to others.
    I,
    /// A picture predicted from earlier ones.
    P,
    /// A picture predicted from earlier and later ones.
    B,
}

impl FrameType {
    /// Whether the picture can be decoded without reference to others.
    pub fn is_keyframe(&self) -> (key: bool)
        ensures
            key <==> *self == FrameType::IDR || *self == FrameType::I,
    {
        match self {
            FrameType::IDR => true,
            FrameType::I => true,
            FrameType::P => false,
            FrameType::B => false,
        }
    }
}

/// Speed against quality, from `P1`, the fastest, to `P7`, the best.
#[derive(Debug, Clone, Copy, PartialEq, Eq, Structural)]
pub enum QualityPreset {
    P1,
    P2,
    P3,
    P4,
    P5,
    P6,
    P7,
}

impl QualityPreset {
    /// The number of the preset, 1 for `P1` up to 7 for `P7`.
    pub open spec fn spec_number(self) -> u32 {
        match self {
            QualityPreset::P1 => 1,
            QualityPreset::P2 => 2,
            QualityPreset::P3 => 3,
            QualityPreset::P4 => 4,
            QualityPreset::P5 => 5,
            QualityPreset::P6 => 6,
            QualityPreset::P7 => 7,
        }
    }

    /// The number under which the GPU-native encoder knows the preset.
    pub fn to_nvenc_preset(&self) -> (n: u32)
        ensures
            n == self.spec_number(),
    {
        match self {
            QualityPreset::P1 => 1,
            QualityPreset::P2 => 2,
            QualityPreset::P3 => 3,
            QualityPreset::P4 => 4,
            QualityPreset::P5 => 5,
            QualityPreset::P6 => 6,
            QualityPreset::P7 => 7,
        }
    }
}

impl Default for QualityPreset {
    fn default() -> (preset: Self)
        ensures
            preset == QualityPreset::P1,
    {
        QualityPreset::P1
    }
}

/// What the encoder is tuned for.
#[derive(Debug, Clone, Copy, PartialEq, Eq, Structural)]
pub enum Tuning {
    /// Lowest latency: no B-frames, no lookahead.
    LowLatency,
    /// Best picture.
    Quality,
    /// Between the two.
    Balanced,
}

impl Default for Tuning {
    fn default() -> (tuning: Self)
        ensures
            tuning == Tuning::LowLatency,
    {
        Tuning::LowLatency
    }
}

/// How the encoder spends its bits.
#[derive(Debug, Clone, Copy, PartialEq, Eq, Structural)]
pub enum RateControlMode {
    /// Constant bitrate.
    CBR,
    /// Variable bitrate.
    VBR,
    /// Constant quantisation parameter.
    CQP,
}

/// The parameters of an encoder. They can be applied again at any time.
#[derive(Debug, Clone, Copy, PartialEq, Eq, Structural)]
pub struct EncoderConfig {
    /// Width of the picture, in pixels.
    pub width: u32,
    /// Height of the picture, in pixels.
    pub height: u32,
    /// Frames per second, from 1 to 240.
    pub fps: u32,
    /// Target bitrate, in bits per second.
    pub bitrate: u32,
    /// Codec of the stream.
    pub codec: VideoCodec,
    /// Speed against quality.
    pub preset: QualityPreset,
    /// What the encoder is tuned for.
    pub tuning: Tuning,
    /// Frames from one key frame to the next; 0 means no periodic key frames.
    pub gop_length: u32,
    /// B-frames between reference frames.
    pub bframes: u32,
    /// How the encoder spends its bits.
    pub rc_mode: RateControlMode,
}

/// The largest frame rate that a configuration may ask for.
pub const MAX_FPS: u32 = 240;

/// The smallest frame rate that a running encoder is set to.
pub const MIN_FRAMERATE: u32 = 15;

/// The largest frame rate that a running encoder is set to.
pub const MAX_FRAMERATE: u32 = 144;

/// A frame rate brought into the range that an encoder runs at: from 15 to
/// 144 frames per second.
pub open spec fn spec_framerate(framerate: u32) -> u32 {
    if framerate < MIN_FRAMERATE {
        MIN_FRAMERATE
    } else if framerate > MAX_FRAMERATE {
        MAX_FRAMERATE
    } else {
        framerate
    }
}

/// A frame rate brought into the range that an encoder runs at.
pub fn clamp_framerate(framerate: u32) -> (clamped: u32)
    ensures
        clamped == spec_framerate(framerate),
        1 <= clamped <= MAX_FPS,
{
    if framerate < MIN_FRAMERATE {
        MIN_FRAMERATE
    } else if framerate > MAX_FRAMERATE {
        MAX_FRAMERATE
    } else {
        framerate
    }
}


impl EncoderConfig {
    /// The configuration of a new encoder: 1080p at 60 frames per second and
    /// 20 Mbit/s, H.264, tuned for low latency with no periodic key frames
    /// and no B-frames.
    pub open spec fn spec_default() -> EncoderConfig {
        EncoderConfig {
            width: 1920,
            height: 1080,
            fps: 60,
            bitrate: 20_000_000,
            codec: VideoCodec::H264,
            preset: QualityPreset::P1,
            tuning: Tuning::LowLatency,
            gop_length: 0,
            bframes: 0,
            rc_mode: RateControlMode::CBR,
        }
    }

    /// Whether an encoder can be initialised with the configuration: the
    /// picture is not empty and the frame rate is from 1 to 240.
    pub open spec fn valid(self) -> bool {
        self.width > 0 && self.height > 0 && 1 <= self.fps <= MAX_FPS
    }

    /// Whether an encoder can be initialised with the configuration.
    pub fn is_valid(&self) -> (ok: bool)
        ensures
            ok <==> self.valid(),
    {
        self.width > 0 && self.height > 0 && 1 <= self.fps && self.fps <= MAX_FPS
    }

    /// The B-frames that the encoder uses: those asked for where it is tuned
    /// for quality, none otherwise.
    pub open spec fn spec_effective_bframes(self) -> u32 {
        if self.tuning == Tuning::Quality {
            self.bframes
        } else {
            0
        }
    }

    /// The B-frames that the encoder uses.
    pub fn effective_bframes(&self) -> (n: u32)
        ensures
            n == self.spec_effective_bframes(),
    {
        match self.tuning {
            Tuning::Quality => self.bframes,
            _ => 0,
        }
    }

    /// Bytes of the rate controller's buffer under low-latency tuning: the
    /// bits of one frame interval.
    pub open spec fn spec_vbv_buffer(self) -> u32
        recommends
            self.fps > 0,
    {
        self.bitrate / self.fps
    }
}

impl Default for EncoderConfig {
    fn default() -> (config: Self)
        ensures
            config == EncoderConfig::spec_default(),
            config.valid(),
    {
        EncoderConfig {
            width: 1920,
            height: 1080,
            fps: 60,
            bitrate: 20_000_000,
            codec: VideoCodec::H264,
            preset: QualityPreset::P1,
            tuning: Tuning::LowLatency,
            gop_length: 0,
            bframes: 0,
            rc_mode: RateControlMode::CBR,
        }
    }
}

/// One compressed frame. The payload is shared, not copied, by its holders.
#[derive(Debug, Clone)]
pub struct EncodedFrame {
    /// Position in the stream; each frame has the number after the last.
    pub seq: u32,
    /// Presentation time: the capture instant, in microseconds.
    pub pts: u64,
    /// Decoding time, in microseconds.
    pub dts: u64,
    /// Codec of the payload.
    pub codec: VideoCodec,
    /// Whether the frame can be decoded on its own.
    pub key_frame: bool,
    /// Width of the picture, in pixels.
    pub width: u32,
    /// Height of the picture, in pixels.
    pub height: u32,
    /// The bitrate that the encoder aimed at when it made the frame.
    pub bitrate: u32,
    /// The compressed picture.
    pub data: bytes::Bytes,
}

/// An encoded frame as a mathematical value.
pub struct EncodedFrameView {
    pub seq: u32,
    pub pts: u64,
    pub dts: u64,
    pub codec: VideoCodec,
    pub key_frame: bool,
    pub width: u32,
    pub height: u32,
    pub bitrate: u32,
    pub data: Seq<u8>,
}

impl View for EncodedFrame {
    type V = EncodedFrameView;

    open spec fn view(&self) -> EncodedFrameView {
        EncodedFrameView {
            seq: self.seq,
            pts: self.pts,
            dts: self.dts,
            codec: self.codec,
            key_frame: self.key_frame,
            width: self.width,
            height: self.height,
            bitrate: self.bitrate,
            data: shared_bytes(self.data),
        }
    }
}

/// Counters of an encoder.
#[derive(Debug, Clone, Copy, PartialEq, Eq, Structural)]
pub struct EncoderStats {
    /// Frames encoded so far.
    pub frames_encoded: u64,
    /// Key frames among them.
    pub keyframes_encoded: u64,
    /// Mean time to encode a frame, in microseconds.
    pub average_encode_time_us: u64,
    /// Bitrate aimed at, in bits per second.
    pub current_bitrate: u32,
    /// Frame rate aimed at.
    pub current_framerate: u32,
    /// Mean bytes of a frame.
    pub average_frame_size: usize,
    /// Frames that failed to encode.
    pub encode_errors: u64,
}

/// What can go wrong in an encoder.
#[derive(Debug, Clone, PartialEq, Eq)]
pub enum EncoderError {
    /// Initialisation failed.
    InitFailed(String),
    /// The hardware encoder is absent.
    HardwareUnavailable,
    /// The configuration is not acceptable, or given at the wrong time.
    InvalidConfig(String),
    /// One frame failed to encode; it is dropped.
    EncodeFailed(String),
    /// The input has a format that the encoder does not take.
    InvalidInputFormat(PixelFormat),
    /// The resolution is not supported.
    ResolutionNotSupported(u32, u32),
    /// Memory ran out.
    OutOfMemory,
}

impl EncoderError {
    /// The text that the error carries, where it carries one.
    pub open spec fn detail(self) -> Seq<char> {
        match self {
            EncoderError::InitFailed(m) => m@,
            EncoderError::InvalidConfig(m) => m@,
            EncoderError::EncodeFailed(m) => m@,
            _ => Seq::<char>::empty(),
        }
    }
}

/// What the quality controller advises the encoder to aim at.
#[derive(Debug, Clone, Copy, PartialEq, Eq, Structural)]
pub enum EncodingStrategy {
    /// Lowest latency, at some cost in quality.
    MinLatency,
    /// Between the two.
    Balanced,
    /// Best quality, at some cost in latency.
    MaxQuality,
}

/// Advice from the quality controller to the encoder.
#[derive(Debug, Clone, Copy, PartialEq, Eq)]
pub struct EncodingHints {
    /// Bitrate to aim at, in bits per second.
    pub target_bitrate: u32,
    /// Frame rate to aim at.
    pub target_framerate: u32,
    /// Largest quantisation parameter to use.
    pub max_qp: u8,
    /// Whether to add forward error correction.
    pub enable_fec: bool,
    /// Share of redundancy, in thousandths.
    pub fec_permille: u32,
    /// Resolution to scale to, where scaling is advised.
    pub scale_resolution: Option<(u32, u32)>,
    /// What to aim at.
    pub strategy: EncodingStrategy,
    /// Whether the next frame must be a key frame.
    pub force_idr: bool,
}

impl Default for EncodingHints {
    fn default() -> (hints: Self)
        ensures
            hints.target_bitrate == 10_000_000,
            hints.target_framerate == 60,
            hints.max_qp == 51,
            !hints.enable_fec,
            hints.fec_permille == 0,
            hints.scale_resolution is None,
            hints.strategy == EncodingStrategy::MinLatency,
            !hints.force_idr,
    {
        EncodingHints {
            target_bitrate: 10_000_000,
            target_framerate: 60,
            max_qp: 51,
            enable_fec: false,
            fec_permille: 0,
            scale_resolution: None,
            strategy: EncodingStrategy::MinLatency,
            force_idr: false,
        }
    }
}

/// How the encoder takes the surface of a frame.
#[derive(Debug, Clone, Copy, PartialEq, Eq, Structural)]
pub enum InputPath {
    /// A device pointer, registered as an external resource; no copy.
    Registered,
    /// A DMA-BUF, imported into the encoder's memory domain; no copy.
    Imported,
    /// Host memory, uploaded or fed to the software encoder.
    Uploaded,
}

/// The path on which the surface of a frame reaches the encoder.
pub open spec fn spec_input_path(surface: Surface) -> InputPath {
    match surface {
        Surface::GpuPtr { .. } => InputPath::Registered,
        Surface::DmaBuf { .. } => InputPath::Imported,
        Surface::Host { .. } => InputPath::Uploaded,
    }
}

/// The path on which the surface of `frame` reaches the encoder.
pub fn input_path(frame: &FrameRef) -> (path: InputPath)
    ensures
        path == spec_input_path(frame.surface()),
{
    if frame.gpu_ptr().is_some() {
        InputPath::Registered
    } else if frame.dmabuf_fd().is_some() {
        InputPath::Imported
    } else {
        InputPath::Uploaded
    }
}

/// Where an encoder stands in its stream.
#[derive(Debug, Clone, Copy, PartialEq, Eq, Structural)]
pub struct StreamState {
    /// Whether the encoder has been initialised.
    pub initialized: bool,
    /// Frames emitted so far.
    pub frame_count: u64,
    /// The number of the next frame.
    pub next_seq: u32,
    /// Whether the next frame must be a key frame on request.
    pub force_idr: bool,
    /// Key frames emitted so far, counted up to the largest number.
    pub keyframes: u64,
}

impl StreamState {
    /// The state of an encoder that has not been initialised.
    pub open spec fn spec_new() -> StreamState {
        StreamState {
            initialized: false,
            frame_count: 0,
            next_seq: 0,
            force_idr: false,
            keyframes: 0,
        }
    }

    /// Whether another frame can be numbered.
    pub open spec fn has_room(self) -> bool {
        self.frame_count < u64::MAX && self.next_seq < u32::MAX
    }

    /// Whether the next frame is a key frame: the first frame is, a frame
    /// after a request is, and with periodic key frames every
    /// `gop_length`-th frame is.
    pub open spec fn next_is_key(self, gop_length: u32) -> bool {
        self.frame_count == 0 || self.force_idr || (gop_length > 0 && self.frame_count % (
        gop_length as u64) == 0)
    }

    /// The state after one frame was emitted under a GOP of `gop_length`.
    pub open spec fn advanced(self, gop_length: u32) -> StreamState {
        StreamState {
            frame_count: (self.frame_count + 1) as u64,
            next_seq: (self.next_seq + 1) as u32,
            force_idr: false,
            keyframes: if self.next_is_key(gop_length) && self.keyframes < u64::MAX {
                (self.keyframes + 1) as u64
            } else {
                self.keyframes
            },
            ..self
        }
    }

    /// The state of an encoder that has not been initialised.
    pub fn new() -> (state: Self)
        ensures
            state == StreamState::spec_new(),
    {
        StreamState {
            initialized: false,
            frame_count: 0,
            next_seq: 0,
            force_idr: false,
            keyframes: 0,
        }
    }

    /// Whether the next frame is a key frame.
    pub fn is_next_key(&self, gop_length: u32) -> (key: bool)
        ensures
            key <==> self.next_is_key(gop_length),
    {
        self.frame_count == 0 || self.force_idr || (gop_length > 0 && self.frame_count % (
        gop_length as u64) == 0)
    }

    /// The frame that carries `payload` as the next of the stream, made from
    /// `frame` under `config`.
    pub open spec fn spec_emit(
        self,
        config: EncoderConfig,
        frame: crate::capture::FrameView,
        payload: Seq<u8>,
    ) -> EncodedFrameView {
        EncodedFrameView {
            seq: self.next_seq,
            pts: frame.timestamp_us,
            dts: frame.timestamp_us,
            codec: config.codec,
            key_frame: self.next_is_key(config.gop_length),
            width: frame.width,
            height: frame.height,
            bitrate: config.bitrate,
            data: payload,
        }
    }

    /// Emits the next frame of the stream with `payload` as its data, and
    /// advances. The frame takes its number from the stream, its times from
    /// the capture instant of `frame`, and its bitrate from `config`.
    pub fn emit(&mut self, config: &EncoderConfig, frame: &FrameRef, payload: Vec<u8>) -> (out:
        EncodedFrame)
        requires
            old(self).has_room(),
        ensures
            out@ == old(self).spec_emit(*config, frame@, payload@),
            *final(self) == old(self).advanced(config.gop_length),
    {
        let key_frame = self.is_next_key(config.gop_length);
        let out = EncodedFrame {
            seq: self.next_seq,
            pts: frame.timestamp(),
            dts: frame.timestamp(),
            codec: config.codec,
            key_frame,
            width: frame.width(),
            height: frame.height(),
            bitrate: config.bitrate,
            data: shared_from_vec(payload),
        };
        self.frame_count = self.frame_count + 1;
        self.next_seq = self.next_seq + 1;
        self.force_idr = false;
        if key_frame && self.keyframes < u64::MAX {
            self.keyframes = self.keyframes + 1;
        }
        out
    }
}

/// An encoder session as a mathematical value.
pub struct SessionView {
    /// The configuration in force.
    pub config: EncoderConfig,
    /// Where the session stands in its stream.
    pub stream: StreamState,
}

/// Why an encoder cannot be initialised with `config` now, or `None`.
pub open spec fn spec_init_refusal(stream: StreamState, config: EncoderConfig) -> Option<
    Seq<char>,
> {
    if stream.initialized {
        Some("Encoder already initialized"@)
    } else if config.width == 0 || config.height == 0 {
        Some("Invalid resolution: width and height must be > 0"@)
    } else if config.fps == 0 {
        Some("Invalid framerate: fps must be > 0"@)
    } else if config.fps > MAX_FPS {
        Some("Invalid framerate: fps must be at most 240"@)
    } else {
        None
    }
}

/// Checks that an encoder can be initialised with `config` now: it must not
/// be initialised yet, and the configuration must be valid.
pub fn check_init(stream: &StreamState, config: &EncoderConfig) -> (checked: Result<
    (),
    EncoderError,
>)
    ensures
        checked is Ok <==> spec_init_refusal(*stream, *config) is None,
        checked is Ok <==> !stream.initialized && config.valid(),
        checked is Err ==> checked->Err_0 is InvalidConfig && checked->Err_0.detail()
            == spec_init_refusal(*stream, *config)->Some_0,
{
    if stream.initialized {
        Err(EncoderError::InvalidConfig("Encoder already initialized".to_string()))
    } else if config.width == 0 || config.height == 0 {
        Err(
            EncoderError::InvalidConfig(
                "Invalid resolution: width and height must be > 0".to_string(),
            ),
        )
    } else if config.fps == 0 {
        Err(EncoderError::InvalidConfig("Invalid framerate: fps must be > 0".to_string()))
    } else if config.fps > MAX_FPS {
        Err(EncoderError::InvalidConfig("Invalid framerate: fps must be at most 240".to_string()))
    } else {
        Ok(())
    }
}

/// Why an encoder cannot emit a frame now, or `None`.
pub open spec fn spec_encode_refusal(stream: StreamState) -> Option<Seq<char>> {
    if !stream.initialized {
        Some("Encoder not initialized"@)
    } else if !stream.has_room() {
        Some("Frame sequence exhausted"@)
    } else {
        None
    }
}

/// Checks that an encoder can emit a frame now: it must be initialised and
/// must have a number left for the frame.
pub fn check_encode(stream: &StreamState) -> (checked: Result<(), EncoderError>)
    ensures
        checked is Ok <==> spec_encode_refusal(*stream) is None,
        checked is Err ==> checked->Err_0 is EncodeFailed && checked->Err_0.detail()
            == spec_encode_refusal(*stream)->Some_0,
{
    if !stream.initialized {
        Err(EncoderError::EncodeFailed("Encoder not initialized".to_string()))
    } else if stream.frame_count == u64::MAX || stream.next_seq == u32::MAX {
        Err(EncoderError::EncodeFailed("Frame sequence exhausted".to_string()))
    } else {
        Ok(())
    }
}

/// Bytes of the stand-in payload of a hardware encoder: the pixels of the
/// picture divided by `divisor`.
pub open spec fn spec_payload_size(width: u32, height: u32, divisor: u32) -> nat
    recommends
        divisor > 0,
{
    (width * height / divisor as int) as nat
}

/// Bytes of the stand-in payload, or `None` where they do not fit a `usize`.
pub fn payload_size(width: u32, height: u32, divisor: u32) -> (size: Option<usize>)
    requires
        divisor > 0,
    ensures
        size is Some <==> spec_payload_size(width, height, divisor) <= usize::MAX,
        size is Some ==> size->Some_0 == spec_payload_size(width, height, divisor),
{
    proof {
        crate::arith::lemma_mul_le(width as int, height as int, u32::MAX as int, u32::MAX as int);
    }
    let bytes: u64 = width as u64 * height as u64 / divisor as u64;
    if bytes as u128 <= usize::MAX as u128 {
        Some(bytes as usize)
    } else {
        None
    }
}

/// Of two frames emitted one after the other, the second has the number
/// after the first. The first frame of a stream is a key frame, and so is
/// the frame after a request for one.
pub proof fn lemma_consecutive_frames(
    state: StreamState,
    config: EncoderConfig,
    first: crate::capture::FrameView,
    first_payload: Seq<u8>,
    second: crate::capture::FrameView,
    second_payload: Seq<u8>,
)
    requires
        state.has_room(),
    ensures
        state.advanced(config.gop_length).spec_emit(config, second, second_payload).seq
            == state.spec_emit(
            config,
            first,
            first_payload,
        ).seq + 1,
        state.frame_count == 0 ==> state.spec_emit(config, first, first_payload).key_frame,
        state.force_idr ==> state.spec_emit(config, first, first_payload).key_frame,
        !state.advanced(config.gop_length).force_idr,
{
}

/// The encoders among which a session chooses.
#[derive(Debug, Clone, Copy, PartialEq, Eq, Structural)]
pub enum EncoderBackend {
    /// The GPU-native encoder.
    NVENC,
    /// The encoder of AMD GPUs.
    AMF,
    /// The encoder of Intel GPUs, which imports DMA-BUFs.
    VAAPI,
    /// The software fallback.
    Software,
}

/// What a GPU offers for encoding.
#[derive(Debug, Clone, PartialEq, Eq)]
pub struct GpuCapabilities {
    /// Name of the GPU.
    pub name: String,
    /// Whether the GPU-native encoder is present.
    pub has_nvenc: bool,
    /// Whether the AMD encoder is present.
    pub has_amf: bool,
    /// Whether the video acceleration interface is present.
    pub has_vaapi: bool,
    /// Whether the Intel fixed-function encoder is present.
    pub has_quicksync: bool,
}

/// The best encoder for a GPU with the given offers: the GPU-native one,
/// then AMD's, then the video acceleration interface, then software.
pub open spec fn spec_best_backend(
    nvenc: bool,
    amf: bool,
    vaapi: bool,
    quicksync: bool,
) -> EncoderBackend {
    if nvenc {
        EncoderBackend::NVENC
    } else if amf {
        EncoderBackend::AMF
    } else if vaapi || quicksync {
        EncoderBackend::VAAPI
    } else {
        EncoderBackend::Software
    }
}

/// The best encoder for the detected GPU; software where none was detected.
pub fn detect_best_backend(gpu: Option<&GpuCapabilities>) -> (backend: EncoderBackend)
    ensures
        backend == match gpu {
            Some(caps) => spec_best_backend(
                caps.has_nvenc,
                caps.has_amf,
                caps.has_vaapi,
                caps.has_quicksync,
            ),
            None => EncoderBackend::Software,
        },
{
    match gpu {
        None => EncoderBackend::Software,
        Some(caps) => {
            if caps.has_nvenc {
                EncoderBackend::NVENC
            } else if caps.has_amf {
                EncoderBackend::AMF
            } else if caps.has_vaapi || caps.has_quicksync {
                EncoderBackend::VAAPI
            } else {
                EncoderBackend::Software
            }
        },
    }
}

/// An encoder of any of the four kinds.
#[derive(Debug)]
pub enum Encoder {
    Nvenc(LowLatencyNvenc),
    Amf(AmfEncoder),
    Vaapi(VaapiEncoder),
    Software(SoftwareEncoder),
}

impl Encoder {
    /// The kind of the encoder.
    pub open spec fn backend(self) -> EncoderBackend {
        match self {
            Encoder::Nvenc(_) => EncoderBackend::NVENC,
            Encoder::Amf(_) => EncoderBackend::AMF,
            Encoder::Vaapi(_) => EncoderBackend::VAAPI,
            Encoder::Software(_) => EncoderBackend::Software,
        }
    }

    /// Where the encoder stands in its stream.
    pub open spec fn stream(self) -> StreamState {
        match self {
            Encoder::Nvenc(e) => e@.stream,
            Encoder::Amf(e) => e@.stream,
            Encoder::Vaapi(e) => e@.stream,
            Encoder::Software(e) => e@.stream,
        }
    }

    /// The configuration in force.
    pub open spec fn spec_config(self) -> EncoderConfig {
        match self {
            Encoder::Nvenc(e) => e@.config,
            Encoder::Amf(e) => e@.config,
            Encoder::Vaapi(e) => e@.config,
            Encoder::Software(e) => e@.config,
        }
    }

    /// Whether the encoder is as it was made: well formed, not
    /// initialised, at the start of its stream, with the default
    /// configuration.
    pub open spec fn is_new(self) -> bool {
        self.wf() && self.stream() == StreamState::spec_new() && self.spec_config()
            == EncoderConfig::spec_default()
    }

    /// Whether the encoder is well formed.
    pub open spec fn wf(self) -> bool {
        match self {
            Encoder::Software(e) => e@.wf(),
            _ => true,
        }
    }

    /// The payload that the encoder gives the next frame, made of `frame`;
    /// `None` where it refuses the frame. A hardware encoder refuses while
    /// it is not initialised, when its numbers are used up and when the
    /// payload does not fit the machine; its payload is zeros, the pixels
    /// of the configured picture by the divisor of the frame's kind. The
    /// software encoder refuses also a frame that is not in host memory or
    /// does not hold the picture.
    pub open spec fn spec_payload(self, frame: crate::capture::FrameView) -> Option<Seq<u8>> {
        match self {
            Encoder::Nvenc(e) => spec_hardware_payload(
                e@.stream,
                e@.config,
                crate::encoder::nvenc_lowlatency::spec_divisor(e@),
            ),
            Encoder::Amf(e) => spec_hardware_payload(
                e@.stream,
                e@.config,
                crate::encoder::amf::spec_divisor(e@.stream, e@.config),
            ),
            Encoder::Vaapi(e) => spec_hardware_payload(
                e@.stream,
                e@.config,
                crate::encoder::vaapi::spec_divisor(e@.stream, e@.config),
            ),
            Encoder::Software(e) => if crate::encoder::software::spec_refusal(e@, frame) is None {
                Some(crate::encoder::software::spec_payload(e@, frame))
            } else {
                None
            },
        }
    }

    /// Whether an encoder of the given kind encodes the codec: all but the
    /// GPU-native and the software encoder leave AV1 out.
    pub open spec fn spec_supports(backend: EncoderBackend, codec: VideoCodec) -> bool {
        match backend {
            EncoderBackend::NVENC | EncoderBackend::Software => true,
            EncoderBackend::AMF | EncoderBackend::VAAPI => codec != VideoCodec::AV1,
        }
    }

    /// The name of the encoder.
    pub fn name(&self) -> (name: &'static str)
        ensures
            name@ == spec_backend_name(self.backend()),
    {
        match self {
            Encoder::Nvenc(e) => e.name(),
            Encoder::Amf(e) => e.name(),
            Encoder::Vaapi(e) => e.name(),
            Encoder::Software(e) => e.name(),
        }
    }

    /// The configuration in force.
    pub fn config(&self) -> (config: &EncoderConfig)
        ensures
            *config == self.spec_config(),
    {
        match self {
            Encoder::Nvenc(e) => e.config(),
            Encoder::Amf(e) => e.config(),
            Encoder::Vaapi(e) => e.config(),
            Encoder::Software(e) => e.config(),
        }
    }

    /// Initialises the encoder, once. A second call, an invalid
    /// configuration and a codec that the encoder does not encode are
    /// refused as an invalid configuration, and change nothing.
    pub fn init(&mut self, config: &EncoderConfig) -> (done: Result<(), EncoderError>)
        requires
            old(self).wf(),
        ensures
            final(self).wf(),
            final(self).backend() == old(self).backend(),
            done is Ok <==> spec_init_refusal(old(self).stream(), *config) is None
                && Encoder::spec_supports(old(self).backend(), config.codec),
            done is Ok ==> final(self).spec_config() == *config && final(self).stream() == (
            StreamState { initialized: true, ..old(self).stream() }),
            done is Err ==> done->Err_0 is InvalidConfig && final(self).spec_config() == old(self).spec_config() && final(self).stream() == old(self).stream(),
    {
        match self {
            Encoder::Nvenc(e) => match e.init(config) {
                Ok(_) => Ok(()),
                Err(err) => Err(err),
            },
            Encoder::Amf(e) => match e.init(config) {
                Ok(_) => Ok(()),
                Err(err) => Err(err),
            },
            Encoder::Vaapi(e) => e.init(config),
            Encoder::Software(e) => e.init(config),
        }
    }

    /// Encodes one frame and emits exactly one encoded frame for it: the
    /// next of the stream, stamped with the capture instant of `frame` and
    /// with the bitrate in force. A failure emits nothing and leaves the
    /// stream where it was.
    pub fn encode(&mut self, frame: &FrameRef) -> (out: Result<EncodedFrame, EncoderError>)
        requires
            old(self).wf(),
        ensures
            final(self).wf(),
            final(self).backend() == old(self).backend(),
            final(self).spec_config() == old(self).spec_config(),
            out is Ok <==> old(self).spec_payload(frame@) is Some,
            out is Ok ==> {
                &&& out->Ok_0@ == old(self).stream().spec_emit(
                    old(self).spec_config(),
                    frame@,
                    old(self).spec_payload(frame@)->Some_0,
                )
                &&& final(self).stream() == old(self).stream().advanced(
                    old(self).spec_config().gop_length,
                )
            },
            out is Err ==> out->Err_0 is EncodeFailed && final(self).stream() == old(self).stream(),
    {
        match self {
            Encoder::Nvenc(e) => match e.encode(frame) {
                Ok((encoded, _)) => Ok(encoded),
                Err(err) => Err(err),
            },
            Encoder::Amf(e) => match e.encode(frame) {
                Ok((encoded, _)) => Ok(encoded),
                Err(err) => Err(err),
            },
            Encoder::Vaapi(e) => match e.encode(frame) {
                Ok((encoded, _)) => Ok(encoded),
                Err(err) => Err(err),
            },
            Encoder::Software(e) => e.encode(frame),
        }
    }

    /// Makes the next frame a key frame.
    pub fn request_idr(&mut self)
        requires
            old(self).wf(),
        ensures
            final(self).wf(),
            final(self).backend() == old(self).backend(),
            final(self).spec_config() == old(self).spec_config(),
            final(self).stream() == (StreamState { force_idr: true, ..old(self).stream() }),
    {
        match self {
            Encoder::Nvenc(e) => e.request_idr(),
            Encoder::Amf(e) => e.request_idr(),
            Encoder::Vaapi(e) => e.request_idr(),
            Encoder::Software(e) => e.request_idr(),
        }
    }

    /// Sets a new target bitrate in the running session: every frame from
    /// now on is stamped with it. The stream stays where it is, so no frame
    /// is dropped, and the encoder is not initialised anew.
    pub fn set_bitrate(&mut self, bitrate: u32)
        requires
            old(self).wf(),
        ensures
            final(self).wf(),
            final(self).backend() == old(self).backend(),
            final(self).spec_config() == (EncoderConfig { bitrate, ..old(self).spec_config() }),
            final(self).stream() == old(self).stream(),
    {
        match self {
            Encoder::Nvenc(e) => {
                let _ = e.set_bitrate(bitrate);
            },
            Encoder::Amf(e) => e.set_bitrate(bitrate),
            Encoder::Vaapi(e) => e.set_bitrate(bitrate),
            Encoder::Software(e) => e.set_bitrate(bitrate),
        }
    }

    /// Sets a new frame rate in the running session, brought into the
    /// range from 15 to 144. The stream stays where it is.
    pub fn set_framerate(&mut self, framerate: u32)
        requires
            old(self).wf(),
        ensures
            final(self).wf(),
            final(self).backend() == old(self).backend(),
            final(self).spec_config() == (EncoderConfig {
                fps: spec_framerate(framerate),
                ..old(self).spec_config()
            }),
            final(self).stream() == old(self).stream(),
    {
        match self {
            Encoder::Nvenc(e) => e.set_framerate(framerate),
            Encoder::Amf(e) => e.set_framerate(framerate),
            Encoder::Vaapi(e) => e.set_framerate(framerate),
            Encoder::Software(e) => e.set_framerate(framerate),
        }
    }

    /// Frames that were held back: none, since every frame is emitted when
    /// it is encoded. The encoder is left exactly as it was.
    pub fn flush(&mut self) -> (held: Result<Vec<EncodedFrame>, EncoderError>)
        ensures
            held is Ok,
            held->Ok_0@.len() == 0,
            *final(self) == *old(self),
    {
        match self {
            Encoder::Nvenc(e) => e.flush(),
            Encoder::Amf(e) => e.flush(),
            Encoder::Vaapi(e) => e.flush(),
            Encoder::Software(e) => e.flush(),
        }
    }
}

/// The stand-in payload of a hardware encoder, or `None` where it refuses.
pub open spec fn spec_hardware_payload(
    stream: StreamState,
    config: EncoderConfig,
    divisor: u32,
) -> Option<Seq<u8>> {
    if spec_encode_refusal(stream) is None && spec_payload_size(
        config.width,
        config.height,
        divisor,
    ) <= usize::MAX {
        Some(Seq::new(spec_payload_size(config.width, config.height, divisor), |i: int| 0u8))
    } else {
        None
    }
}

/// After the bitrate was set, the next frame carries the new target, and it
/// has the number that it would have had without the change: no frame is
/// dropped across the call.
pub proof fn lemma_bitrate_change_keeps_stream(
    stream: StreamState,
    config: EncoderConfig,
    bitrate: u32,
    frame: crate::capture::FrameView,
    payload: Seq<u8>,
)
    ensures
        stream.spec_emit(EncoderConfig { bitrate, ..config }, frame, payload).bitrate == bitrate,
        stream.spec_emit(EncoderConfig { bitrate, ..config }, frame, payload).seq
            == stream.spec_emit(config, frame, payload).seq,
        stream.spec_emit(EncoderConfig { bitrate, ..config }, frame, payload).key_frame
            == stream.spec_emit(config, frame, payload).key_frame,
        stream.advanced(config.gop_length).spec_emit(
            EncoderConfig { bitrate, ..config },
            frame,
            payload,
        ).bitrate == bitrate,
{
}

/// The name of an encoder of the given kind.
pub open spec fn spec_backend_name(backend: EncoderBackend) -> Seq<char> {
    match backend {
        EncoderBackend::NVENC => "NVENC-LowLatency"@,
        EncoderBackend::AMF => "AMF"@,
        EncoderBackend::VAAPI => "VAAPI"@,
        EncoderBackend::Software => "Software-x264"@,
    }
}

/// A new encoder of the given kind. `hardware_present` says whether the
/// runtime or device of a hardware encoder was found; the GPU-native and the
/// software encoder need none.
pub fn create_encoder(backend: EncoderBackend, hardware_present: bool) -> (made: Result<
    Encoder,
    EncoderError,
>)
    ensures
        made is Ok <==> hardware_present || backend == EncoderBackend::NVENC || backend
            == EncoderBackend::Software,
        made is Ok ==> made->Ok_0.backend() == backend && made->Ok_0.is_new(),
        made is Err ==> made->Err_0 is HardwareUnavailable,
{
    match backend {
        EncoderBackend::NVENC => Ok(Encoder::Nvenc(LowLatencyNvenc::new())),
        EncoderBackend::AMF => match AmfEncoder::new(hardware_present) {
            Ok(e) => Ok(Encoder::Amf(e)),
            Err(e) => Err(e),
        },
        EncoderBackend::VAAPI => match VaapiEncoder::with_device(
            "/dev/dri/renderD128",
            hardware_present,
        ) {
            Ok(e) => Ok(Encoder::Vaapi(e)),
            Err(e) => Err(e),
        },
        EncoderBackend::Software => Ok(Encoder::Software(SoftwareEncoder::new())),
    }
}

/// The best encoder for the detected GPU, falling through to the software
/// encoder where the hardware one cannot be created.
pub fn detect_best_encoder(gpu: Option<&GpuCapabilities>, hardware_present: bool) -> (encoder:
    Encoder)
    ensures
        encoder.is_new(),
        encoder.backend() == {
            let best = match gpu {
                Some(caps) => spec_best_backend(
                    caps.has_nvenc,
                    caps.has_amf,
                    caps.has_vaapi,
                    caps.has_quicksync,
                ),
                None => EncoderBackend::Software,
            };
            if hardware_present || best == EncoderBackend::NVENC {
                best
            } else {
                EncoderBackend::Software
            }
        },
{
    match create_encoder(detect_best_backend(gpu), hardware_present) {
        Ok(encoder) => encoder,
        Err(_) => Encoder::Software(SoftwareEncoder::new()),
    }
}

} // verus!
