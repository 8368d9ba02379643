//! The GPU-native encoder under low-latency tuning: the parameters handed to
//! the vendor interface and the session that numbers its frames.

use crate::capture::FrameRef;
use crate::encoder::check_encode;
use crate::encoder::check_init;
use crate::encoder::input_path;
use crate::encoder::payload_size;
use crate::encoder::spec_encode_refusal;
use crate::encoder::spec_init_refusal;
use crate::encoder::spec_input_path;
use crate::encoder::spec_payload_size;
use crate::encoder::EncodedFrame;
use crate::encoder::EncoderConfig;
use crate::encoder::EncoderError;
use crate::encoder::InputPath;
use crate::encoder::RateControlMode;
use crate::encoder::SessionView;
use crate::encoder::StreamState;
use vstd::prelude::*;

verus! {

/// Buffer format of 8-bit luma with interleaved chroma.
pub const NV_ENC_BUFFER_FORMAT_NV12: u32 = 0x01;

/// Picture structure of a progressive frame.
pub const NV_ENC_PIC_STRUCT_FRAME: u32 = 0x01;

/// Picture type of a frame that resets the decoder.
pub const NV_ENC_PIC_TYPE_IDR: u32 = 0x00;

/// Picture type of a predicted frame.
pub const NV_ENC_PIC_TYPE_P: u32 = 0x02;

/// Rate control with a constant bitrate.
pub const NV_ENC_PARAMS_RC_CBR: u32 = 0x00;

/// Rate control with a variable bitrate.
pub const NV_ENC_PARAMS_RC_VBR: u32 = 0x01;

/// Rate control with a constant quantisation parameter.
pub const NV_ENC_PARAMS_RC_CQP: u32 = 0x02;

/// Tuning for low latency.
pub const NV_ENC_TUNING_INFO_LOW_LATENCY: u32 = 0x01;

/// The GOP length that means no periodic key frames.
pub const NVENC_INFINITE_GOPLENGTH: u32 = 0xFFFFFFFF;

/// The list of entry points of the vendor interface.
#[allow(non_camel_case_types)]
#[derive(Debug, Clone, Copy, PartialEq, Eq, Structural)]
pub struct NV_ENCODE_API_FUNCTION_LIST {
    pub version: u32,
}

/// Parameters of the rate controller.
#[allow(non_camel_case_types)]
#[allow(non_snake_case)]
#[derive(Debug, Clone, Copy, PartialEq, Eq, Structural)]
pub struct NV_ENC_RC_PARAMS {
    pub version: u32,
    pub rateControlMode: u32,
    pub averageBitRate: u32,
    pub maxBitRate: u32,
    pub vbvBufferSize: u32,
    pub vbvInitialDelay: u32,
}

/// Configuration of the encoder.
#[allow(non_camel_case_types)]
#[allow(non_snake_case)]
#[derive(Debug, Clone, Copy, PartialEq, Eq, Structural)]
pub struct NV_ENC_CONFIG {
    pub version: u32,
    pub gopLength: u32,
    pub frameIntervalP: i32,
    pub rcParams: NV_ENC_RC_PARAMS,
}

/// Parameters of initialisation.
#[allow(non_camel_case_types)]
#[allow(non_snake_case)]
#[derive(Debug, Clone, Copy, PartialEq, Eq, Structural)]
pub struct NV_ENC_INITIALIZE_PARAMS {
    pub version: u32,
    pub encodeWidth: u32,
    pub encodeHeight: u32,
    pub frameRateNum: u32,
    pub frameRateDen: u32,
    pub enablePTD: u32,
    pub tuningInfo: u32,
}

/// Parameters of a reconfiguration of the running encoder.
#[allow(non_camel_case_types)]
#[allow(non_snake_case)]
#[derive(Debug, Clone, Copy, PartialEq, Eq, Structural)]
pub struct NV_ENC_RECONFIGURE_PARAMS {
    pub version: u32,
    pub averageBitRate: u32,
    pub maxBitRate: u32,
}

/// The number that stands for a rate-control mode in the vendor interface.
pub open spec fn spec_rc_mode(mode: RateControlMode) -> u32 {
    match mode {
        RateControlMode::CBR => NV_ENC_PARAMS_RC_CBR,
        RateControlMode::VBR => NV_ENC_PARAMS_RC_VBR,
        RateControlMode::CQP => NV_ENC_PARAMS_RC_CQP,
    }
}

/// The peak bitrate for a target: a fifth above it, no more than fits.
pub open spec fn spec_peak_bitrate(bitrate: u32) -> u32 {
    if bitrate * 6 / 5 <= u32::MAX {
        (bitrate * 6 / 5) as u32
    } else {
        u32::MAX
    }
}

/// The peak bitrate for a target: a fifth above it, no more than fits.
pub fn peak_bitrate(bitrate: u32) -> (peak: u32)
    ensures
        peak == spec_peak_bitrate(bitrate),
{
    let raised: u64 = bitrate as u64 * 6 / 5;
    if raised <= u32::MAX as u64 {
        raised as u32
    } else {
        u32::MAX
    }
}

/// The low-latency form of `base` for a session under `config`: no periodic
/// key frames, every frame a reference for the next, the rate controller on
/// the target bitrate with a buffer of one frame interval, half full at the
/// start.
pub open spec fn spec_low_latency_config(base: NV_ENC_CONFIG, config: EncoderConfig) -> NV_ENC_CONFIG
    recommends
        config.fps > 0,
{
    NV_ENC_CONFIG {
        version: base.version,
        gopLength: NVENC_INFINITE_GOPLENGTH,
        frameIntervalP: 1,
        rcParams: NV_ENC_RC_PARAMS {
            version: base.rcParams.version,
            rateControlMode: spec_rc_mode(config.rc_mode),
            averageBitRate: config.bitrate,
            maxBitRate: spec_peak_bitrate(config.bitrate),
            vbvBufferSize: config.bitrate / config.fps,
            vbvInitialDelay: config.bitrate / config.fps / 2,
        },
    }
}

/// The initialisation parameters of a session under `config`.
pub open spec fn spec_initialize_params(config: EncoderConfig) -> NV_ENC_INITIALIZE_PARAMS {
    NV_ENC_INITIALIZE_PARAMS {
        version: 0,
        encodeWidth: config.width,
        encodeHeight: config.height,
        frameRateNum: config.fps,
        frameRateDen: 1,
        enablePTD: 1,
        tuningInfo: NV_ENC_TUNING_INFO_LOW_LATENCY,
    }
}

/// Pixels per byte of the stand-in payload of a key frame.
pub const KEY_FRAME_DIVISOR: u32 = 10;

/// Pixels per byte of the stand-in payload of any other frame.
pub const FRAME_DIVISOR: u32 = 50;

/// The GPU-native encoder under low-latency tuning.
#[derive(Debug)]
pub struct LowLatencyNvenc {
    config: EncoderConfig,
    stream: StreamState,
}

impl View for LowLatencyNvenc {
    type V = SessionView;

    closed spec fn view(&self) -> SessionView {
        SessionView { config: self.config, stream: self.stream }
    }
}

impl LowLatencyNvenc {
    /// An encoder that has not been initialised.
    pub fn new() -> (encoder: Self)
        ensures
            encoder@ == (SessionView {
                config: EncoderConfig::spec_default(),
                stream: StreamState::spec_new(),
            }),
    {
        LowLatencyNvenc { config: EncoderConfig::default(), stream: StreamState::new() }
    }

    /// Fills `target` with the low-latency configuration of this session.
    pub fn setup_low_latency_config(&self, target: &mut NV_ENC_CONFIG)
        requires
            self@.config.fps > 0,
        ensures
            *final(target) == spec_low_latency_config(*old(target), self@.config),
    {
        target.gopLength = NVENC_INFINITE_GOPLENGTH;
        target.frameIntervalP = 1;
        target.rcParams.rateControlMode = match self.config.rc_mode {
            RateControlMode::CBR => NV_ENC_PARAMS_RC_CBR,
            RateControlMode::VBR => NV_ENC_PARAMS_RC_VBR,
            RateControlMode::CQP => NV_ENC_PARAMS_RC_CQP,
        };
        target.rcParams.averageBitRate = self.config.bitrate;
        target.rcParams.maxBitRate = peak_bitrate(self.config.bitrate);
        target.rcParams.vbvBufferSize = self.config.bitrate / self.config.fps;
        target.rcParams.vbvInitialDelay = target.rcParams.vbvBufferSize / 2;
    }

    /// Initialises the encoder, once. Returns the parameters to hand to the
    /// vendor interface. A second call, and an invalid configuration, are
    /// refused and change nothing.
    pub fn init(&mut self, config: &EncoderConfig) -> (done: Result<
        (NV_ENC_INITIALIZE_PARAMS, NV_ENC_CONFIG),
        EncoderError,
    >)
        ensures
            done is Ok <==> spec_init_refusal(old(self)@.stream, *config) is None,
            done is Ok ==> final(self)@ == (SessionView {
                config: *config,
                stream: StreamState { initialized: true, ..old(self)@.stream },
            }) && done->Ok_0.0 == spec_initialize_params(*config) && done->Ok_0.1
                == spec_low_latency_config(zeroed_config(), *config),
            done is Err ==> final(self)@ == old(self)@ && done->Err_0 is InvalidConfig
                && done->Err_0.detail() == spec_init_refusal(old(self)@.stream, *config)->Some_0,
    {
        match check_init(&self.stream, config) {
            Err(e) => {
                return Err(e);
            },
            Ok(()) => {},
        }
        self.config = *config;
        let mut enc_config = NV_ENC_CONFIG {
            version: 0,
            gopLength: 0,
            frameIntervalP: 0,
            rcParams: NV_ENC_RC_PARAMS {
                version: 0,
                rateControlMode: 0,
                averageBitRate: 0,
                maxBitRate: 0,
                vbvBufferSize: 0,
                vbvInitialDelay: 0,
            },
        };
        self.setup_low_latency_config(&mut enc_config);
        let init_params = NV_ENC_INITIALIZE_PARAMS {
            version: 0,
            encodeWidth: config.width,
            encodeHeight: config.height,
            frameRateNum: config.fps,
            frameRateDen: 1,
            enablePTD: 1,
            tuningInfo: NV_ENC_TUNING_INFO_LOW_LATENCY,
        };
        self.stream.initialized = true;
        Ok((init_params, enc_config))
    }

    /// Encodes one frame and emits exactly one encoded frame for it. The
    /// surface is taken on the path that `input` names: registered, imported
    /// or uploaded, by its kind. The payload stands in for the compressed
    /// picture. A failure emits nothing and leaves the stream where it was.
    pub fn encode(&mut self, frame: &FrameRef) -> (out: Result<(EncodedFrame, InputPath), EncoderError>)
        ensures
            out is Ok <==> spec_encode_refusal(old(self)@.stream) is None && spec_payload_size(
                old(self)@.config.width,
                old(self)@.config.height,
                spec_divisor(old(self)@),
            ) <= usize::MAX,
            out is Ok ==> {
                let size = spec_payload_size(
                    old(self)@.config.width,
                    old(self)@.config.height,
                    spec_divisor(old(self)@),
                );
                &&& out->Ok_0.0@ == old(self)@.stream.spec_emit(
                    old(self)@.config,
                    frame@,
                    Seq::new(size, |i: int| 0u8),
                )
                &&& out->Ok_0.1 == spec_input_path(frame.surface())
                &&& final(self)@ == (SessionView {
                    stream: old(self)@.stream.advanced(old(self)@.config.gop_length),
                    ..old(self)@
                })
            },
            out is Err ==> final(self)@ == old(self)@ && out->Err_0 is EncodeFailed
                && out->Err_0.detail() == (match spec_encode_refusal(old(self)@.stream) {
                Some(text) => text,
                None => "Encoded frame does not fit"@,
            }),
    {
        match check_encode(&self.stream) {
            Err(e) => {
                return Err(e);
            },
            Ok(()) => {},
        }
        let path = input_path(frame);
        let divisor = if self.stream.is_next_key(self.config.gop_length) {
            KEY_FRAME_DIVISOR
        } else {
            FRAME_DIVISOR
        };
        let size = match payload_size(self.config.width, self.config.height, divisor) {
            None => {
                return Err(EncoderError::EncodeFailed("Encoded frame does not fit".to_string()));
            },
            Some(size) => size,
        };
        let payload = vec![0u8; size];
        assert(payload@ =~= Seq::new(size as nat, |i: int| 0u8));
        let encoded = self.stream.emit(&self.config, frame, payload);
        Ok((encoded, path))
    }

    /// Frames that were held back: none, since every frame is emitted when
    /// it is encoded.
    pub fn flush(&mut self) -> (held: Result<Vec<EncodedFrame>, EncoderError>)
        ensures
            held is Ok,
            held->Ok_0@.len() == 0,
            *final(self) == *old(self),
    {
        Ok(Vec::new())
    }

    /// Makes the next frame a key frame.
    pub fn request_idr(&mut self)
        ensures
            final(self)@ == (SessionView {
                stream: StreamState { force_idr: true, ..old(self)@.stream },
                ..old(self)@
            }),
    {
        self.stream.force_idr = true;
    }

    /// Sets a new target bitrate in the running session: every frame from
    /// now on aims at it. The stream stays where it is, so no frame is
    /// dropped. Returns the parameters of the reconfiguration.
    pub fn set_bitrate(&mut self, bitrate: u32) -> (reconfigure: NV_ENC_RECONFIGURE_PARAMS)
        ensures
            final(self)@ == (SessionView {
                config: EncoderConfig { bitrate, ..old(self)@.config },
                ..old(self)@
            }),
            reconfigure == (NV_ENC_RECONFIGURE_PARAMS {
                version: 0,
                averageBitRate: bitrate,
                maxBitRate: spec_peak_bitrate(bitrate),
            }),
    {
        self.config.bitrate = bitrate;
        NV_ENC_RECONFIGURE_PARAMS {
            version: 0,
            averageBitRate: bitrate,
            maxBitRate: peak_bitrate(bitrate),
        }
    }

    /// Sets a new frame rate in the running session, brought into the
    /// range from 15 to 144. The stream stays where it is.
    pub fn set_framerate(&mut self, framerate: u32)
        ensures
            final(self)@ == (SessionView {
                config: EncoderConfig {
                    fps: crate::encoder::spec_framerate(framerate),
                    ..old(self)@.config
                },
                ..old(self)@
            }),
    {
        self.config.fps = crate::encoder::clamp_framerate(framerate);
    }

    /// The name of the encoder.
    pub fn name(&self) -> (name: &'static str)
        ensures
            name@ == "NVENC-LowLatency"@,
    {
        "NVENC-LowLatency"
    }

    /// The configuration in force.
    pub fn config(&self) -> (config: &EncoderConfig)
        ensures
            *config == self@.config,
    {
        &self.config
    }
}

/// A configuration of the vendor interface with every field zero.
pub open spec fn zeroed_config() -> NV_ENC_CONFIG {
    NV_ENC_CONFIG {
        version: 0,
        gopLength: 0,
        frameIntervalP: 0,
        rcParams: NV_ENC_RC_PARAMS {
            version: 0,
            rateControlMode: 0,
            averageBitRate: 0,
            maxBitRate: 0,
            vbvBufferSize: 0,
            vbvInitialDelay: 0,
        },
    }
}

/// Pixels per byte of the stand-in payload of the next frame.
pub open spec fn spec_divisor(session: SessionView) -> u32 {
    if session.stream.next_is_key(session.config.gop_length) {
        KEY_FRAME_DIVISOR
    } else {
        FRAME_DIVISOR
    }
}

} // verus!
