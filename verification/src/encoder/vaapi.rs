//! The encoder of Intel GPUs, reached through the video acceleration
//! interface. It imports DMA-BUFs without a copy.

use crate::capture::FrameRef;
use crate::capture::PixelFormat;
use crate::encoder::check_encode;
use crate::encoder::check_init;
use crate::encoder::input_path;
use crate::encoder::payload_size;
use crate::encoder::spec_encode_refusal;
use crate::encoder::spec_init_refusal;
use crate::encoder::spec_input_path;
use crate::encoder::spec_payload_size;
use crate::encoder::EncodedFrame;
use crate::encoder::EncoderConfig;
use crate::encoder::EncoderError;
use crate::encoder::InputPath;
use crate::encoder::RateControlMode;
use crate::encoder::StreamState;
use crate::encoder::VideoCodec;
use vstd::prelude::*;

verus! {

/// Profile of constrained-baseline H.264.
#[allow(non_upper_case_globals)]
pub const VAProfileH264ConstrainedBaseline: i32 = 2;

/// Profile of main H.264.
#[allow(non_upper_case_globals)]
pub const VAProfileH264Main: i32 = 1;

/// Profile of high H.264.
#[allow(non_upper_case_globals)]
pub const VAProfileH264High: i32 = 3;

/// Profile of main HEVC.
#[allow(non_upper_case_globals)]
pub const VAProfileHEVCMain: i32 = 17;

/// Profile of 10-bit main HEVC.
#[allow(non_upper_case_globals)]
pub const VAProfileHEVCMain10: i32 = 18;

/// Entry point of slice encoding.
#[allow(non_upper_case_globals)]
pub const VAEntrypointEncSlice: i32 = 1;

/// Entry point of low-power slice encoding.
#[allow(non_upper_case_globals)]
pub const VAEntrypointEncSliceLP: i32 = 8;

/// Rate control with a constant bitrate.
pub const VA_RC_CBR: u32 = 0x00000002;

/// Rate control with a variable bitrate.
pub const VA_RC_VBR: u32 = 0x00000004;

/// Rate control with a constant quantisation parameter.
pub const VA_RC_CQP: u32 = 0x00000010;

/// Four-character code of NV12.
pub const VA_FOURCC_NV12: u32 = 0x3231564E;

/// Four-character code of YUY2.
pub const VA_FOURCC_YUY2: u32 = 0x32595559;

/// Four-character code of RGBA.
pub const VA_FOURCC_RGBA: u32 = 0x41424752;

/// Surfaces in the pool of an initialised encoder.
pub const SURFACE_POOL: usize = 16;

/// Pixels per byte of the stand-in payload of a key frame.
pub const KEY_FRAME_DIVISOR: u32 = 8;

/// Pixels per byte of the stand-in payload of any other frame.
pub const FRAME_DIVISOR: u32 = 40;

/// Render nodes that are looked for.
pub const RENDER_NODES: usize = 10;

/// The path of render node `index`: nodes are numbered from 128.
pub open spec fn spec_render_node(index: int) -> Seq<char> {
    if index == 0 {
        "/dev/dri/renderD128"@
    } else if index == 1 {
        "/dev/dri/renderD129"@
    } else if index == 2 {
        "/dev/dri/renderD130"@
    } else if index == 3 {
        "/dev/dri/renderD131"@
    } else if index == 4 {
        "/dev/dri/renderD132"@
    } else if index == 5 {
        "/dev/dri/renderD133"@
    } else if index == 6 {
        "/dev/dri/renderD134"@
    } else if index == 7 {
        "/dev/dri/renderD135"@
    } else if index == 8 {
        "/dev/dri/renderD136"@
    } else {
        "/dev/dri/renderD137"@
    }
}

/// The path of render node `index`.
pub fn render_node(index: usize) -> (path: &'static str)
    requires
        index < RENDER_NODES,
    ensures
        path@ == spec_render_node(index as int),
{
    if index == 0 {
        "/dev/dri/renderD128"
    } else if index == 1 {
        "/dev/dri/renderD129"
    } else if index == 2 {
        "/dev/dri/renderD130"
    } else if index == 3 {
        "/dev/dri/renderD131"
    } else if index == 4 {
        "/dev/dri/renderD132"
    } else if index == 5 {
        "/dev/dri/renderD133"
    } else if index == 6 {
        "/dev/dri/renderD134"
    } else if index == 7 {
        "/dev/dri/renderD135"
    } else if index == 8 {
        "/dev/dri/renderD136"
    } else {
        "/dev/dri/renderD137"
    }
}

/// The paths of the render nodes that exist among the first `upto`, in
/// order. `present[i]` says whether node `i` exists.
pub open spec fn spec_devices(present: Seq<bool>, upto: int) -> Seq<Seq<char>>
    decreases upto,
{
    if upto <= 0 {
        Seq::<Seq<char>>::empty()
    } else if upto - 1 < present.len() && present[upto - 1] {
        spec_devices(present, upto - 1).push(spec_render_node(upto - 1))
    } else {
        spec_devices(present, upto - 1)
    }
}

/// The render nodes that exist, in order. `present[i]` says whether node
/// `i` exists; nodes past the end of `present` count as absent.
pub fn enumerate_vaapi_devices(present: &[bool]) -> (devices: Vec<String>)
    ensures
        devices@.len() == spec_devices(present@, RENDER_NODES as int).len(),
        forall|i: int|
            0 <= i < devices@.len() ==> (#[trigger] devices@[i])@ == spec_devices(
                present@,
                RENDER_NODES as int,
            )[i],
{
    let mut devices: Vec<String> = Vec::new();
    let mut i: usize = 0;
    while i < RENDER_NODES
        invariant
            i <= RENDER_NODES,
            devices@.len() == spec_devices(present@, i as int).len(),
            forall|k: int|
                0 <= k < devices@.len() ==> (#[trigger] devices@[k])@ == spec_devices(
                    present@,
                    i as int,
                )[k],
        decreases RENDER_NODES - i,
    {
        if i < present.len() && present[i] {
            devices.push(render_node(i).to_string());
        }
        i += 1;
    }
    devices
}

/// Whether any render node exists.
pub fn is_vaapi_available(present: &[bool]) -> (available: bool)
    ensures
        available <==> spec_devices(present@, RENDER_NODES as int).len() > 0,
{
    !enumerate_vaapi_devices(present).is_empty()
}

/// The profile under which the interface encodes a codec, if it does.
pub open spec fn spec_va_profile(codec: VideoCodec) -> Option<i32> {
    match codec {
        VideoCodec::H264 => Some(VAProfileH264High),
        VideoCodec::HEVC => Some(VAProfileHEVCMain),
        VideoCodec::AV1 => None,
    }
}

/// The number that stands for a rate-control mode in the interface.
pub open spec fn spec_rc_mode(mode: RateControlMode) -> u32 {
    match mode {
        RateControlMode::CBR => VA_RC_CBR,
        RateControlMode::VBR => VA_RC_VBR,
        RateControlMode::CQP => VA_RC_CQP,
    }
}

/// The four-character code under which the interface takes a format.
pub open spec fn spec_fourcc(format: PixelFormat) -> u32 {
    match format {
        PixelFormat::NV12 | PixelFormat::YUV420 | PixelFormat::P010 => VA_FOURCC_NV12,
        PixelFormat::RGBA | PixelFormat::BGRA => VA_FOURCC_RGBA,
    }
}

/// The encoder of Intel GPUs.
#[derive(Debug)]
pub struct VaapiEncoder {
    config: EncoderConfig,
    stream: StreamState,
    surfaces: Vec<u32>,
    render_node: String,
}

/// An encoder as a mathematical value.
pub struct VaapiView {
    /// The configuration in force.
    pub config: EncoderConfig,
    /// Where the session stands in its stream.
    pub stream: StreamState,
    /// The pool of surfaces.
    pub surfaces: Seq<u32>,
    /// Path of the render node in use.
    pub render_node: Seq<char>,
}

impl View for VaapiEncoder {
    type V = VaapiView;

    closed spec fn view(&self) -> VaapiView {
        VaapiView {
            config: self.config,
            stream: self.stream,
            surfaces: self.surfaces@,
            render_node: self.render_node@,
        }
    }
}

impl VaapiEncoder {
    /// An encoder on the first render node. `device_exists` says whether
    /// the node is there.
    pub fn new(device_exists: bool) -> (made: Result<Self, EncoderError>)
        ensures
            made is Ok <==> device_exists,
            made is Ok ==> made->Ok_0@ == (VaapiView {
                config: EncoderConfig::spec_default(),
                stream: StreamState::spec_new(),
                surfaces: Seq::<u32>::empty(),
                render_node: "/dev/dri/renderD128"@,
            }),
            made is Err ==> made->Err_0 is HardwareUnavailable,
    {
        VaapiEncoder::with_device("/dev/dri/renderD128", device_exists)
    }

    /// An encoder on the render node at `device_path`. `device_exists` says
    /// whether the node is there; without it the hardware is unavailable.
    pub fn with_device(device_path: &str, device_exists: bool) -> (made: Result<Self, EncoderError>)
        ensures
            made is Ok <==> device_exists,
            made is Ok ==> made->Ok_0@ == (VaapiView {
                config: EncoderConfig::spec_default(),
                stream: StreamState::spec_new(),
                surfaces: Seq::<u32>::empty(),
                render_node: device_path@,
            }),
            made is Err ==> made->Err_0 is HardwareUnavailable,
    {
        if !device_exists {
            return Err(EncoderError::HardwareUnavailable);
        }
        Ok(
            VaapiEncoder {
                config: EncoderConfig::default(),
                stream: StreamState::new(),
                surfaces: Vec::new(),
                render_node: device_path.to_string(),
            },
        )
    }

    /// The profile under which `codec` is encoded. AV1 is not encoded.
    pub fn find_va_profile(&self, codec: VideoCodec) -> (profile: Result<i32, EncoderError>)
        ensures
            match spec_va_profile(codec) {
                Some(p) => profile == Ok::<i32, EncoderError>(p),
                None => profile is Err && profile->Err_0 is InvalidConfig && profile->Err_0.detail()
                    == "VAAPI AV1 not yet implemented"@,
            },
    {
        match codec {
            VideoCodec::H264 => Ok(VAProfileH264High),
            VideoCodec::HEVC => Ok(VAProfileHEVCMain),
            VideoCodec::AV1 => Err(
                EncoderError::InvalidConfig("VAAPI AV1 not yet implemented".to_string()),
            ),
        }
    }

    /// The number that stands for the session's rate-control mode.
    pub fn rate_control(&self) -> (mode: u32)
        ensures
            mode == spec_rc_mode(self@.config.rc_mode),
    {
        match self.config.rc_mode {
            RateControlMode::CBR => VA_RC_CBR,
            RateControlMode::VBR => VA_RC_VBR,
            RateControlMode::CQP => VA_RC_CQP,
        }
    }

    /// The four-character code under which `format` is taken.
    pub fn convert_format(&self, format: PixelFormat) -> (fourcc: u32)
        ensures
            fourcc == spec_fourcc(format),
    {
        match format {
            PixelFormat::NV12 => VA_FOURCC_NV12,
            PixelFormat::YUV420 => VA_FOURCC_NV12,
            PixelFormat::RGBA => VA_FOURCC_RGBA,
            PixelFormat::BGRA => VA_FOURCC_RGBA,
            PixelFormat::P010 => VA_FOURCC_NV12,
        }
    }

    /// Initialises the encoder, once, and fills its pool of surfaces. A
    /// second call, an invalid configuration and a codec without a profile
    /// are refused and change nothing.
    pub fn init(&mut self, config: &EncoderConfig) -> (done: Result<(), EncoderError>)
        ensures
            done is Ok <==> spec_init_refusal(old(self)@.stream, *config) is None
                && spec_va_profile(config.codec) is Some,
            done is Ok ==> final(self)@ == (VaapiView {
                config: *config,
                stream: StreamState { initialized: true, ..old(self)@.stream },
                surfaces: Seq::new(SURFACE_POOL as nat, |i: int| 0u32),
                ..old(self)@
            }),
            done is Err ==> final(self)@ == old(self)@ && done->Err_0 is InvalidConfig
                && done->Err_0.detail() == (match spec_init_refusal(old(self)@.stream, *config) {
                Some(text) => text,
                None => "VAAPI AV1 not yet implemented"@,
            }),
    {
        match check_init(&self.stream, config) {
            Err(e) => {
                return Err(e);
            },
            Ok(()) => {},
        }
        match self.find_va_profile(config.codec) {
            Err(e) => {
                return Err(e);
            },
            Ok(_) => {},
        }
        self.config = *config;
        self.surfaces = vec![0u32; SURFACE_POOL];
        assert(self.surfaces@ =~= Seq::new(SURFACE_POOL as nat, |i: int| 0u32));
        self.stream.initialized = true;
        Ok(())
    }

    /// Encodes one frame and emits exactly one encoded frame for it. The
    /// surface is taken on the path that its kind names: registered,
    /// imported or uploaded. The payload stands in for the compressed
    /// picture. A failure emits nothing and leaves the stream where it was.
    pub fn encode(&mut self, frame: &FrameRef) -> (out: Result<(EncodedFrame, InputPath), EncoderError>)
        ensures
            out is Ok <==> spec_encode_refusal(old(self)@.stream) is None && spec_payload_size(
                old(self)@.config.width,
                old(self)@.config.height,
                spec_divisor(old(self)@.stream, old(self)@.config),
            ) <= usize::MAX,
            out is Ok ==> {
                let size = spec_payload_size(
                    old(self)@.config.width,
                    old(self)@.config.height,
                    spec_divisor(old(self)@.stream, old(self)@.config),
                );
                &&& out->Ok_0.0@ == old(self)@.stream.spec_emit(
                    old(self)@.config,
                    frame@,
                    Seq::new(size, |i: int| 0u8),
                )
                &&& out->Ok_0.1 == spec_input_path(frame.surface())
                &&& final(self)@ == (VaapiView { stream: old(self)@.stream.advanced(old(self)@.config.gop_length), ..old(self)@ })
            },
            out is Err ==> final(self)@ == old(self)@ && out->Err_0 is EncodeFailed
                && out->Err_0.detail() == (match spec_encode_refusal(old(self)@.stream) {
                Some(text) => text,
                None => "Encoded frame does not fit"@,
            }),
    {
        match check_encode(&self.stream) {
            Err(e) => {
                return Err(e);
            },
            Ok(()) => {},
        }
        let path = input_path(frame);
        let divisor = if self.stream.is_next_key(self.config.gop_length) {
            KEY_FRAME_DIVISOR
        } else {
            FRAME_DIVISOR
        };
        let size = match payload_size(self.config.width, self.config.height, divisor) {
            None => {
                return Err(EncoderError::EncodeFailed("Encoded frame does not fit".to_string()));
            },
            Some(size) => size,
        };
        let payload = vec![0u8; size];
        assert(payload@ =~= Seq::new(size as nat, |i: int| 0u8));
        let encoded = self.stream.emit(&self.config, frame, payload);
        Ok((encoded, path))
    }

    /// Frames that were held back: none, since every frame is emitted when
    /// it is encoded.
    pub fn flush(&mut self) -> (held: Result<Vec<EncodedFrame>, EncoderError>)
        ensures
            held is Ok,
            held->Ok_0@.len() == 0,
            *final(self) == *old(self),
    {
        Ok(Vec::new())
    }

    /// Makes the next frame a key frame.
    pub fn request_idr(&mut self)
        ensures
            final(self)@ == (VaapiView {
                stream: StreamState { force_idr: true, ..old(self)@.stream },
                ..old(self)@
            }),
    {
        self.stream.force_idr = true;
    }

    /// Sets a new target bitrate in the running session: every frame from
    /// now on aims at it. The stream stays where it is, so no frame is
    /// dropped.
    pub fn set_bitrate(&mut self, bitrate: u32)
        ensures
            final(self)@ == (VaapiView {
                config: EncoderConfig { bitrate, ..old(self)@.config },
                ..old(self)@
            }),
    {
        self.config.bitrate = bitrate;
    }

    /// Sets a new frame rate in the running session, brought into the
    /// range from 15 to 144. The stream stays where it is.
    pub fn set_framerate(&mut self, framerate: u32)
        ensures
            final(self)@ == (VaapiView {
                config: EncoderConfig {
                    fps: crate::encoder::spec_framerate(framerate),
                    ..old(self)@.config
                },
                ..old(self)@
            }),
    {
        self.config.fps = crate::encoder::clamp_framerate(framerate);
    }

    /// The name of the encoder.
    pub fn name(&self) -> (name: &'static str)
        ensures
            name@ == "VAAPI"@,
    {
        "VAAPI"
    }

    /// The configuration in force.
    pub fn config(&self) -> (config: &EncoderConfig)
        ensures
            *config == self@.config,
    {
        &self.config
    }
}

/// Pixels per byte of the stand-in payload of the next frame.
pub open spec fn spec_divisor(stream: StreamState, config: EncoderConfig) -> u32 {
    if stream.next_is_key(config.gop_length) {
        KEY_FRAME_DIVISOR
    } else {
        FRAME_DIVISOR
    }
}

} // verus!
