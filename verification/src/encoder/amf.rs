//! The encoder of AMD GPUs.

use crate::capture::FrameRef;
use crate::capture::PixelFormat;
use crate::encoder::check_encode;
use crate::encoder::check_init;
use crate::encoder::input_path;
use crate::encoder::payload_size;
use crate::encoder::spec_encode_refusal;
use crate::encoder::spec_init_refusal;
use crate::encoder::spec_input_path;
use crate::encoder::spec_payload_size;
use crate::encoder::EncodedFrame;
use crate::encoder::EncoderConfig;
use crate::encoder::EncoderError;
use crate::encoder::InputPath;
use crate::encoder::StreamState;
use crate::encoder::VideoCodec;
use vstd::prelude::*;

verus! {

/// Name of the H.264 encoder component.
pub const AMF_H264_ENCODER: &'static str = "AMFVideoEncoderVCE_AVC";

/// Name of the HEVC encoder component.
pub const AMF_HEVC_ENCODER: &'static str = "AMFVideoEncoderHEVC";

/// Usage for low latency.
pub const AMF_VIDEO_ENCODER_USAGE_LOW_LATENCY: i64 = 1;

/// Usage for webcams.
pub const AMF_VIDEO_ENCODER_USAGE_WEBCAM: i64 = 2;

/// Usage for transcoding.
pub const AMF_VIDEO_ENCODER_USAGE_TRANSCODING: i64 = 0;

/// Rate control with a constant bitrate.
pub const AMF_VIDEO_ENCODER_RATE_CONTROL_METHOD_CBR: i64 = 1;

/// Rate control with a variable bitrate.
pub const AMF_VIDEO_ENCODER_RATE_CONTROL_METHOD_VBR: i64 = 2;

/// Preset for speed.
pub const AMF_VIDEO_ENCODER_QUALITY_PRESET_SPEED: i64 = 1;

/// Preset between speed and quality.
pub const AMF_VIDEO_ENCODER_QUALITY_PRESET_BALANCED: i64 = 0;

/// Preset for quality.
pub const AMF_VIDEO_ENCODER_QUALITY_PRESET_QUALITY: i64 = 2;

/// Pixels per byte of the stand-in payload of a key frame.
pub const KEY_FRAME_DIVISOR: u32 = 8;

/// Pixels per byte of the stand-in payload of any other frame.
pub const FRAME_DIVISOR: u32 = 40;

/// The component that encodes a codec, if there is one.
pub open spec fn spec_component(codec: VideoCodec) -> Option<Seq<char>> {
    match codec {
        VideoCodec::H264 => Some("AMFVideoEncoderVCE_AVC"@),
        VideoCodec::HEVC => Some("AMFVideoEncoderHEVC"@),
        VideoCodec::AV1 => None,
    }
}

/// The number that stands for a format in the runtime.
pub open spec fn spec_surface_format(format: PixelFormat) -> i64 {
    match format {
        PixelFormat::NV12 => 0,
        PixelFormat::YUV420 => 1,
        PixelFormat::RGBA => 2,
        PixelFormat::BGRA => 3,
        PixelFormat::P010 => 4,
    }
}

/// The encoder of AMD GPUs.
#[derive(Debug)]
pub struct AmfEncoder {
    config: EncoderConfig,
    stream: StreamState,
}

/// An encoder as a mathematical value.
pub struct AmfView {
    /// The configuration in force.
    pub config: EncoderConfig,
    /// Where the session stands in its stream.
    pub stream: StreamState,
}

impl View for AmfEncoder {
    type V = AmfView;

    closed spec fn view(&self) -> AmfView {
        AmfView { config: self.config, stream: self.stream }
    }
}

impl AmfEncoder {
    /// An encoder that has not been initialised. `runtime_found` says
    /// whether the vendor runtime is installed; without it the hardware is
    /// unavailable.
    pub fn new(runtime_found: bool) -> (made: Result<Self, EncoderError>)
        ensures
            made is Ok <==> runtime_found,
            made is Ok ==> made->Ok_0@ == (AmfView {
                config: EncoderConfig::spec_default(),
                stream: StreamState::spec_new(),
            }),
            made is Err ==> made->Err_0 is HardwareUnavailable,
    {
        if !runtime_found {
            return Err(EncoderError::HardwareUnavailable);
        }
        Ok(AmfEncoder { config: EncoderConfig::default(), stream: StreamState::new() })
    }

    /// The name of the component that encodes `codec`. AV1 is not encoded.
    pub fn create_encoder_component(&self, codec: VideoCodec) -> (component: Result<
        &'static str,
        EncoderError,
    >)
        ensures
            match spec_component(codec) {
                Some(name) => component is Ok && component->Ok_0@ == name,
                None => component is Err && component->Err_0 is InvalidConfig
                    && component->Err_0.detail() == "AMF AV1 not yet implemented"@,
            },
    {
        match codec {
            VideoCodec::H264 => Ok(AMF_H264_ENCODER),
            VideoCodec::HEVC => Ok(AMF_HEVC_ENCODER),
            VideoCodec::AV1 => Err(
                EncoderError::InvalidConfig("AMF AV1 not yet implemented".to_string()),
            ),
        }
    }

    /// The number that stands for `format` in the runtime.
    pub fn convert_format(&self, format: PixelFormat) -> (code: i64)
        ensures
            code == spec_surface_format(format),
    {
        match format {
            PixelFormat::NV12 => 0,
            PixelFormat::YUV420 => 1,
            PixelFormat::RGBA => 2,
            PixelFormat::BGRA => 3,
            PixelFormat::P010 => 4,
        }
    }

    /// Initialises the encoder, once. Returns the name of the component to
    /// create. A second call, an invalid configuration and a codec without a
    /// component are refused and change nothing.
    pub fn init(&mut self, config: &EncoderConfig) -> (done: Result<&'static str, EncoderError>)
        ensures
            done is Ok <==> spec_init_refusal(old(self)@.stream, *config) is None
                && spec_component(config.codec) is Some,
            done is Ok ==> final(self)@ == (AmfView {
                config: *config,
                stream: StreamState { initialized: true, ..old(self)@.stream },
            }) && done->Ok_0@ == spec_component(config.codec)->Some_0,
            done is Err ==> final(self)@ == old(self)@ && done->Err_0 is InvalidConfig
                && done->Err_0.detail() == (match spec_init_refusal(old(self)@.stream, *config) {
                Some(text) => text,
                None => "AMF AV1 not yet implemented"@,
            }),
    {
        match check_init(&self.stream, config) {
            Err(e) => {
                return Err(e);
            },
            Ok(()) => {},
        }
        let component = match self.create_encoder_component(config.codec) {
            Err(e) => {
                return Err(e);
            },
            Ok(name) => name,
        };
        self.config = *config;
        self.stream.initialized = true;
        Ok(component)
    }

    /// Encodes one frame and emits exactly one encoded frame for it. The
    /// surface is taken on the path that its kind names: registered,
    /// imported or uploaded. The payload stands in for the compressed
    /// picture. A failure emits nothing and leaves the stream where it was.
    pub fn encode(&mut self, frame: &FrameRef) -> (out: Result<(EncodedFrame, InputPath), EncoderError>)
        ensures
            out is Ok <==> spec_encode_refusal(old(self)@.stream) is None && spec_payload_size(
                old(self)@.config.width,
                old(self)@.config.height,
                spec_divisor(old(self)@.stream, old(self)@.config),
            ) <= usize::MAX,
            out is Ok ==> {
                let size = spec_payload_size(
                    old(self)@.config.width,
                    old(self)@.config.height,
                    spec_divisor(old(self)@.stream, old(self)@.config),
                );
                &&& out->Ok_0.0@ == old(self)@.stream.spec_emit(
                    old(self)@.config,
                    frame@,
                    Seq::new(size, |i: int| 0u8),
                )
                &&& out->Ok_0.1 == spec_input_path(frame.surface())
                &&& final(self)@ == (AmfView { stream: old(self)@.stream.advanced(old(self)@.config.gop_length), ..old(self)@ })
            },
            out is Err ==> final(self)@ == old(self)@ && out->Err_0 is EncodeFailed
                && out->Err_0.detail() == (match spec_encode_refusal(old(self)@.stream) {
                Some(text) => text,
                None => "Encoded frame does not fit"@,
            }),
    {
        match check_encode(&self.stream) {
            Err(e) => {
                return Err(e);
            },
            Ok(()) => {},
        }
        let path = input_path(frame);
        let divisor = if self.stream.is_next_key(self.config.gop_length) {
            KEY_FRAME_DIVISOR
        } else {
            FRAME_DIVISOR
        };
        let size = match payload_size(self.config.width, self.config.height, divisor) {
            None => {
                return Err(EncoderError::EncodeFailed("Encoded frame does not fit".to_string()));
            },
            Some(size) => size,
        };
        let payload = vec![0u8; size];
        assert(payload@ =~= Seq::new(size as nat, |i: int| 0u8));
        let encoded = self.stream.emit(&self.config, frame, payload);
        Ok((encoded, path))
    }

    /// Frames that were held back: none, since every frame is emitted when
    /// it is encoded.
    pub fn flush(&mut self) -> (held: Result<Vec<EncodedFrame>, EncoderError>)
        ensures
            held is Ok,
            held->Ok_0@.len() == 0,
            *final(self) == *old(self),
    {
        Ok(Vec::new())
    }

    /// Makes the next frame a key frame.
    pub fn request_idr(&mut self)
        ensures
            final(self)@ == (AmfView {
                stream: StreamState { force_idr: true, ..old(self)@.stream },
                ..old(self)@
            }),
    {
        self.stream.force_idr = true;
    }

    /// Sets a new target bitrate in the running session: every frame from
    /// now on aims at it. The stream stays where it is, so no frame is
    /// dropped.
    pub fn set_bitrate(&mut self, bitrate: u32)
        ensures
            final(self)@ == (AmfView {
                config: EncoderConfig { bitrate, ..old(self)@.config },
                ..old(self)@
            }),
    {
        self.config.bitrate = bitrate;
    }

    /// Sets a new frame rate in the running session, brought into the
    /// range from 15 to 144. The stream stays where it is.
    pub fn set_framerate(&mut self, framerate: u32)
        ensures
            final(self)@ == (AmfView {
                config: EncoderConfig {
                    fps: crate::encoder::spec_framerate(framerate),
                    ..old(self)@.config
                },
                ..old(self)@
            }),
    {
        self.config.fps = crate::encoder::clamp_framerate(framerate);
    }

    /// The name of the encoder.
    pub fn name(&self) -> (name: &'static str)
        ensures
            name@ == "AMF"@,
    {
        "AMF"
    }

    /// The configuration in force.
    pub fn config(&self) -> (config: &EncoderConfig)
        ensures
            *config == self@.config,
    {
        &self.config
    }
}

/// Pixels per byte of the stand-in payload of the next frame.
pub open spec fn spec_divisor(stream: StreamState, config: EncoderConfig) -> u32 {
    if stream.next_is_key(config.gop_length) {
        KEY_FRAME_DIVISOR
    } else {
        FRAME_DIVISOR
    }
}

} // verus!
