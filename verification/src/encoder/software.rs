//! The software fallback: conversion of captured pixels to planar 4:2:0 and
//! a session that numbers the frames it emits.

use crate::arith::lemma_div_mod_parts;
use crate::arith::lemma_mul_le;
use crate::capture::frame_size;
use crate::capture::spec_frame_size;
use crate::capture::FrameRef;
use crate::capture::PixelFormat;
use crate::capture::Surface;
use crate::encoder::check_encode;
use crate::encoder::check_init;
use crate::encoder::spec_encode_refusal;
use crate::encoder::spec_init_refusal;
use crate::encoder::EncodedFrame;
use crate::encoder::EncoderConfig;
use crate::encoder::EncoderError;
use crate::encoder::EncoderStats;
use crate::encoder::QualityPreset;
use crate::encoder::StreamState;
use crate::encoder::Tuning;
use crate::encoder::VideoCodec;
use vstd::prelude::*;

verus! {

/// Luma of a pixel, by the BT.601 weights in thousandths.
pub open spec fn spec_luma(r: u8, g: u8, b: u8) -> u8 {
    ((16000 + 257 * r + 504 * g + 98 * b) / 1000) as u8
}

/// Blue-difference chroma of a pixel, by the BT.601 weights in thousandths.
pub open spec fn spec_chroma_u(r: u8, g: u8, b: u8) -> u8 {
    ((128000 - 148 * r - 291 * g + 439 * b) / 1000) as u8
}

/// Red-difference chroma of a pixel, by the BT.601 weights in thousandths.
pub open spec fn spec_chroma_v(r: u8, g: u8, b: u8) -> u8 {
    ((128000 + 439 * r - 368 * g - 71 * b) / 1000) as u8
}

/// Luma of a pixel.
pub fn luma(r: u8, g: u8, b: u8) -> (y: u8)
    ensures
        y == spec_luma(r, g, b),
{
    ((16000 + 257 * (r as u32) + 504 * (g as u32) + 98 * (b as u32)) / 1000) as u8
}

/// Blue-difference chroma of a pixel.
pub fn chroma_u(r: u8, g: u8, b: u8) -> (u: u8)
    ensures
        u == spec_chroma_u(r, g, b),
{
    ((128000 + 439 * (b as u32) - 148 * (r as u32) - 291 * (g as u32)) / 1000) as u8
}

/// Red-difference chroma of a pixel.
pub fn chroma_v(r: u8, g: u8, b: u8) -> (v: u8)
    ensures
        v == spec_chroma_v(r, g, b),
{
    ((128000 + 439 * (r as u32) - 368 * (g as u32) - 71 * (b as u32)) / 1000) as u8
}

/// The planar form of a semi-planar 4:2:0 picture of `pixels` pixels: the
/// luma plane as it is, then the chroma samples at even positions, then
/// those at odd positions. A last byte without a partner is zero.
pub open spec fn spec_nv12_to_i420(nv12: Seq<u8>, pixels: int) -> Seq<u8> {
    let half = pixels / 2 / 2;
    Seq::new(
        (pixels + pixels / 2) as nat,
        |i: int|
            if i < pixels {
                nv12[i]
            } else if i < pixels + half {
                nv12[pixels + 2 * (i - pixels)]
            } else if i < pixels + 2 * half {
                nv12[pixels + 2 * (i - pixels - half) + 1]
            } else {
                0u8
            },
    )
}

/// Converts a semi-planar 4:2:0 picture to planar form. Returns `None` where
/// the input has fewer bytes than the picture needs or the picture does not
/// fit the machine.
pub fn convert_nv12_to_i420(nv12: &[u8], width: u32, height: u32) -> (i420: Option<Vec<u8>>)
    ensures
        i420 is Some <==> spec_frame_size(width, height, PixelFormat::NV12) <= nv12@.len(),
        i420 is Some ==> i420->Some_0@ == spec_nv12_to_i420(nv12@, width * height),
{
    assert(nv12@.len() == nv12.len());
    let total = match frame_size(width, height, PixelFormat::NV12) {
        None => {
            return None;
        },
        Some(total) => total,
    };
    if nv12.len() < total {
        return None;
    }
    proof {
        lemma_mul_le(width as int, height as int, u32::MAX as int, u32::MAX as int);
    }
    let ghost pixels: int = width * height;
    let ghost target = spec_nv12_to_i420(nv12@, pixels);
    let y_size: usize = (width as u64 * height as u64) as usize;
    let uv_size: usize = y_size / 2;
    let half: usize = uv_size / 2;
    let mut out: Vec<u8> = Vec::new();
    let mut i: usize = 0;
    while i < y_size
        invariant
            i <= y_size,
            y_size == pixels,
            total == pixels + pixels / 2,
            total <= nv12@.len(),
            target == spec_nv12_to_i420(nv12@, pixels),
            out@ == target.take(i as int),
        decreases y_size - i,
    {
        out.push(nv12[i]);
        assert(out@ =~= target.take(i + 1));
        i += 1;
    }
    let mut k: usize = 0;
    while k < half
        invariant
            k <= half,
            y_size == pixels,
            half == pixels / 2 / 2,
            total == pixels + pixels / 2,
            total <= nv12@.len(),
            target == spec_nv12_to_i420(nv12@, pixels),
            out@ == target.take(y_size + k),
        decreases half - k,
    {
        out.push(nv12[y_size + 2 * k]);
        assert(out@ =~= target.take(y_size + k + 1));
        k += 1;
    }
    let mut m: usize = 0;
    while m < half
        invariant
            m <= half,
            y_size == pixels,
            half == pixels / 2 / 2,
            total == pixels + pixels / 2,
            total <= nv12@.len(),
            target == spec_nv12_to_i420(nv12@, pixels),
            out@ == target.take(y_size + half + m),
        decreases half - m,
    {
        out.push(nv12[y_size + 2 * m + 1]);
        assert(out@ =~= target.take(y_size + half + m + 1));
        m += 1;
    }
    if y_size + 2 * half < total {
        out.push(0u8);
        assert(out@ =~= target.take(y_size + 2 * half + 1));
    }
    assert(out@ =~= target);
    Some(out)
}

/// Index, in a packed 32-bit picture `width` pixels wide, of the pixel from
/// which chroma sample `k` is taken: the top left of its 2x2 block.
pub open spec fn spec_chroma_source(k: int, width: int) -> int {
    2 * (k / (width / 2)) * width + 2 * (k % (width / 2))
}

/// The planar 4:2:0 form of a packed picture whose pixels hold red, green
/// and blue in their first three bytes: a luma sample for every pixel, then
/// one blue-difference and one red-difference sample for every 2x2 block.
pub open spec fn spec_rgba_to_i420(rgba: Seq<u8>, width: int, height: int) -> Seq<u8> {
    let pixels = width * height;
    let blocks = pixels / 4;
    Seq::new(
        (pixels + 2 * blocks) as nat,
        |i: int|
            if i < pixels {
                spec_luma(rgba[4 * i], rgba[4 * i + 1], rgba[4 * i + 2])
            } else if i < pixels + blocks {
                let p = spec_chroma_source(i - pixels, width);
                spec_chroma_u(rgba[4 * p], rgba[4 * p + 1], rgba[4 * p + 2])
            } else {
                let p = spec_chroma_source(i - pixels - blocks, width);
                spec_chroma_v(rgba[4 * p], rgba[4 * p + 1], rgba[4 * p + 2])
            },
    )
}

/// Whether a packed 32-bit picture can be converted: both sides are even,
/// as the 2x2 blocks need, and `len` bytes hold all its pixels.
pub open spec fn spec_rgba_convertible(len: nat, width: u32, height: u32) -> bool {
    width % 2 == 0 && height % 2 == 0 && width * height * 4 <= len
}

proof fn lemma_chroma_source_in_picture(k: int, width: int, height: int)
    requires
        width > 0,
        height > 0,
        width % 2 == 0,
        height % 2 == 0,
        0 <= k < width * height / 4,
    ensures
        0 <= spec_chroma_source(k, width) < width * height,
        0 <= k / (width / 2),
        0 <= 2 * (k / (width / 2)) <= 2 * (k / (width / 2)) * width <= spec_chroma_source(k, width),
{
    let cw = width / 2;
    let ch = height / 2;
    lemma_div_mod_parts(k, cw);
    let cy = k / cw;
    let cx = k % cw;
    assert(width == 2 * cw);
    assert(height == 2 * ch);
    assert(width * height == 4 * (cw * ch)) by (nonlinear_arith)
        requires
            width == 2 * cw,
            height == 2 * ch,
    ;
    assert(k < cw * ch);
    assert(0 <= cy) by (nonlinear_arith)
        requires
            k >= 0,
            cw > 0,
            cy == k / cw,
    ;
    assert(cy < ch) by (nonlinear_arith)
        requires
            k == cy * cw + cx,
            0 <= cx < cw,
            k < cw * ch,
    ;
    assert(2 * cy * width + 2 * cx < width * height) by (nonlinear_arith)
        requires
            0 <= cy < ch,
            0 <= cx < cw,
            width == 2 * cw,
            height == 2 * ch,
    ;
    assert(0 <= 2 * cy <= 2 * cy * width) by (nonlinear_arith)
        requires
            0 <= cy,
            width > 0,
    ;
}

/// Converts a packed 32-bit picture to planar 4:2:0. Returns `None` where a
/// side of the picture is odd or the input has fewer bytes than the picture
/// needs.
pub fn convert_rgba_to_i420(rgba: &[u8], width: u32, height: u32) -> (i420: Option<Vec<u8>>)
    ensures
        i420 is Some <==> spec_rgba_convertible(rgba@.len(), width, height),
        i420 is Some ==> i420->Some_0@ == spec_rgba_to_i420(rgba@, width as int, height as int),
{
    if width % 2 != 0 || height % 2 != 0 {
        return None;
    }
    proof {
        lemma_mul_le(width as int, height as int, u32::MAX as int, u32::MAX as int);
    }
    assert(rgba@.len() == rgba.len());
    let pixels64: u64 = width as u64 * height as u64;
    if pixels64 as u128 * 4 > rgba.len() as u128 {
        return None;
    }
    let ghost w: int = width as int;
    let ghost h: int = height as int;
    let ghost target = spec_rgba_to_i420(rgba@, w, h);
    let pixels: usize = pixels64 as usize;
    let blocks: usize = pixels / 4;
    let mut out: Vec<u8> = Vec::new();
    let mut i: usize = 0;
    while i < pixels
        invariant
            i <= pixels,
            pixels == w * h,
            pixels * 4 <= rgba@.len(),
            rgba@.len() <= usize::MAX,
            target == spec_rgba_to_i420(rgba@, w, h),
            out@ == target.take(i as int),
        decreases pixels - i,
    {
        out.push(luma(rgba[4 * i], rgba[4 * i + 1], rgba[4 * i + 2]));
        assert(out@ =~= target.take(i + 1));
        i += 1;
    }
    let cw: usize = (width / 2) as usize;
    let mut k: usize = 0;
    while k < blocks
        invariant
            k <= blocks,
            pixels == w * h,
            blocks == w * h / 4,
            cw == w / 2,
            w == width,
            h == height,
            w % 2 == 0,
            h % 2 == 0,
            pixels * 4 <= rgba@.len(),
            rgba@.len() <= usize::MAX,
            target == spec_rgba_to_i420(rgba@, w, h),
            out@ == target.take(pixels + k),
        decreases blocks - k,
    {
        proof {
            assert(w > 0 && h > 0) by (nonlinear_arith)
                requires
                    w * h / 4 > 0,
                    w >= 0,
                    h >= 0,
            ;
            lemma_chroma_source_in_picture(k as int, w, h);
            lemma_div_mod_parts(k as int, cw as int);
        }
        let p: usize = 2 * (k / cw) * (width as usize) + 2 * (k % cw);
        out.push(chroma_u(rgba[4 * p], rgba[4 * p + 1], rgba[4 * p + 2]));
        assert(out@ =~= target.take(pixels + k + 1));
        k += 1;
    }
    let mut m: usize = 0;
    while m < blocks
        invariant
            m <= blocks,
            pixels == w * h,
            blocks == w * h / 4,
            cw == w / 2,
            w == width,
            h == height,
            w % 2 == 0,
            h % 2 == 0,
            pixels * 4 <= rgba@.len(),
            rgba@.len() <= usize::MAX,
            target == spec_rgba_to_i420(rgba@, w, h),
            out@ == target.take(pixels + blocks + m),
        decreases blocks - m,
    {
        proof {
            assert(w > 0 && h > 0) by (nonlinear_arith)
                requires
                    w * h / 4 > 0,
                    w >= 0,
                    h >= 0,
            ;
            lemma_chroma_source_in_picture(m as int, w, h);
            lemma_div_mod_parts(m as int, cw as int);
        }
        let p: usize = 2 * (m / cw) * (width as usize) + 2 * (m % cw);
        out.push(chroma_v(rgba[4 * p], rgba[4 * p + 1], rgba[4 * p + 2]));
        assert(out@ =~= target.take(pixels + blocks + m + 1));
        m += 1;
    }
    assert(out@ =~= target);
    Some(out)
}

/// The 8-bit form of 16-bit samples: the first byte of each pair.
pub open spec fn spec_downsample(samples: Seq<u8>) -> Seq<u8> {
    Seq::new(((samples.len() + 1) / 2) as nat, |i: int| samples[2 * i])
}

/// Reduces 16-bit samples to 8 bits by keeping the first byte of each pair.
pub fn downsample_p010(samples: &[u8]) -> (reduced: Vec<u8>)
    ensures
        reduced@ == spec_downsample(samples@),
{
    let ghost target = spec_downsample(samples@);
    let mut out: Vec<u8> = Vec::new();
    let mut i: usize = 0;
    while i < samples.len()
        invariant
            i <= samples@.len() + 1,
            i % 2 == 0,
            target == spec_downsample(samples@),
            out@ == target.take(i as int / 2),
        decreases samples@.len() + 1 - i,
    {
        out.push(samples[i]);
        assert(out@ =~= target.take(i as int / 2 + 1));
        if samples.len() - i < 2 {
            assert(out@ =~= target);
            return out;
        }
        i += 2;
    }
    assert(out@ =~= target);
    out
}

/// The planar 4:2:0 picture that the encoder makes of `data` in `format`
/// for a picture of the given size, or `None` where `data` cannot hold one.
pub open spec fn spec_to_i420(
    data: Seq<u8>,
    format: PixelFormat,
    width: u32,
    height: u32,
) -> Option<Seq<u8>> {
    match format {
        PixelFormat::NV12 => if spec_frame_size(width, height, PixelFormat::NV12) <= data.len() {
            Some(spec_nv12_to_i420(data, width * height))
        } else {
            None
        },
        PixelFormat::RGBA | PixelFormat::BGRA => if spec_rgba_convertible(
            data.len(),
            width,
            height,
        ) {
            Some(spec_rgba_to_i420(data, width as int, height as int))
        } else {
            None
        },
        PixelFormat::YUV420 => Some(data),
        PixelFormat::P010 => Some(spec_downsample(data)),
    }
}

/// Converts captured pixels to planar 4:2:0.
pub fn to_i420(data: &Vec<u8>, format: PixelFormat, width: u32, height: u32) -> (i420: Option<
    Vec<u8>,
>)
    ensures
        i420 is Some <==> spec_to_i420(data@, format, width, height) is Some,
        i420 is Some ==> i420->Some_0@ == spec_to_i420(data@, format, width, height)->Some_0,
{
    match format {
        PixelFormat::NV12 => convert_nv12_to_i420(data.as_slice(), width, height),
        PixelFormat::RGBA => convert_rgba_to_i420(data.as_slice(), width, height),
        PixelFormat::BGRA => convert_rgba_to_i420(data.as_slice(), width, height),
        PixelFormat::YUV420 => Some(data.clone()),
        PixelFormat::P010 => Some(downsample_p010(data.as_slice())),
    }
}

/// The quantisation parameter for a target bitrate: 51 less the bits per
/// pixel in thousandths, rounded up, and never under 18.
pub open spec fn spec_qp(bitrate: u32, width: u32, height: u32, fps: u32) -> u8
    recommends
        width * height * fps > 0,
{
    let per_second = width * height * fps;
    let spent = (bitrate * 1000 + per_second - 1) / per_second;
    if spent >= 33 {
        18
    } else {
        (51 - spent) as u8
    }
}

/// The quantisation parameter for a target bitrate.
pub fn quantizer(bitrate: u32, width: u32, height: u32, fps: u32) -> (qp: u8)
    requires
        width > 0,
        height > 0,
        fps > 0,
    ensures
        qp == spec_qp(bitrate, width, height, fps),
        18 <= qp <= 51,
{
    proof {
        lemma_mul_le(width as int, height as int, u32::MAX as int, u32::MAX as int);
        lemma_mul_le(
            width * height,
            fps as int,
            u32::MAX as int * u32::MAX as int,
            u32::MAX as int,
        );
        lemma_mul_le(1, 1, width as int, height as int);
        lemma_mul_le(1, 1, width * height, fps as int);
    }
    let per_second: u128 = width as u128 * height as u128 * fps as u128;
    let spent: u128 = (bitrate as u128 * 1000 + per_second - 1) / per_second;
    if spent >= 33 {
        18
    } else {
        (51 - spent) as u8
    }
}

/// Bytes of the stand-in payload for a planar picture of `len` bytes: `len`
/// divided by the compression ratio, which grows with the quantisation
/// parameter from 8 to 48 for H.264, from 12 to 72 for HEVC and from 16 to
/// 96 for AV1; never under 100.
pub open spec fn spec_estimated_size(len: nat, codec: VideoCodec, qp: u8) -> nat {
    let (base, span): (int, int) = match codec {
        VideoCodec::H264 => (8, 40),
        VideoCodec::HEVC => (12, 60),
        VideoCodec::AV1 => (16, 80),
    };
    let estimate = ((len * 51) as int) / (base * 51 + qp * span);
    if estimate < 100 {
        100
    } else {
        estimate as nat
    }
}

/// Bytes of the stand-in payload for a planar picture of `len` bytes.
pub fn estimated_size(len: usize, codec: VideoCodec, qp: u8) -> (size: usize)
    ensures
        size == spec_estimated_size(len as nat, codec, qp),
{
    let (base, span): (u128, u128) = match codec {
        VideoCodec::H264 => (8, 40),
        VideoCodec::HEVC => (12, 60),
        VideoCodec::AV1 => (16, 80),
    };
    let estimate: u128 = (len as u128 * 51) / (base * 51 + qp as u128 * span);
    assert(estimate <= len) by (nonlinear_arith)
        requires
            estimate == (len * 51) / ((base * 51 + qp * span) as int),
            base * 51 + qp * span >= 51,
            len >= 0,
    ;
    if estimate < 100 {
        100
    } else {
        estimate as usize
    }
}

/// The parameters that the software codec runs with.
#[derive(Debug, Clone, Copy, PartialEq, Eq, Structural)]
pub struct SoftwareContext {
    /// Width of the picture.
    pub width: u32,
    /// Height of the picture.
    pub height: u32,
    /// Codec of the stream.
    pub codec: VideoCodec,
    /// Speed level of the codec, 0 the fastest and 9 the slowest.
    pub preset: u8,
    /// What the codec is tuned for.
    pub tune: Tuning,
    /// Quantisation parameter.
    pub qp: u8,
}

/// The speed level of the codec for a preset.
pub open spec fn spec_preset_level(preset: QualityPreset) -> u8 {
    match preset {
        QualityPreset::P1 => 0,
        QualityPreset::P2 => 1,
        QualityPreset::P3 => 2,
        QualityPreset::P4 => 3,
        QualityPreset::P5 => 4,
        QualityPreset::P6 => 6,
        QualityPreset::P7 => 9,
    }
}

/// The name of the codec's preset for a preset.
pub open spec fn spec_preset_name(preset: QualityPreset) -> Seq<char> {
    match preset {
        QualityPreset::P1 => "ultrafast"@,
        QualityPreset::P2 => "superfast"@,
        QualityPreset::P3 => "veryfast"@,
        QualityPreset::P4 => "faster"@,
        QualityPreset::P5 => "fast"@,
        QualityPreset::P6 => "medium"@,
        QualityPreset::P7 => "slow"@,
    }
}

/// The name of the codec's tuning for a tuning.
pub open spec fn spec_tune_name(tuning: Tuning) -> Seq<char> {
    match tuning {
        Tuning::LowLatency => "zerolatency"@,
        Tuning::Quality => "film"@,
        Tuning::Balanced => ""@,
    }
}

/// The context of a session under `config`.
pub open spec fn spec_context(config: EncoderConfig) -> SoftwareContext {
    SoftwareContext {
        width: config.width,
        height: config.height,
        codec: config.codec,
        preset: spec_preset_level(config.preset),
        tune: config.tuning,
        qp: spec_qp(config.bitrate, config.width, config.height, config.fps),
    }
}

/// The software encoder.
#[derive(Debug)]
pub struct SoftwareEncoder {
    config: EncoderConfig,
    stream: StreamState,
    encoder_ctx: Option<SoftwareContext>,
}

/// A software encoder as a mathematical value.
pub struct SoftwareView {
    /// The configuration in force.
    pub config: EncoderConfig,
    /// Where the session stands in its stream.
    pub stream: StreamState,
    /// The codec's parameters, once initialised.
    pub context: Option<SoftwareContext>,
}

impl View for SoftwareEncoder {
    type V = SoftwareView;

    closed spec fn view(&self) -> SoftwareView {
        SoftwareView { config: self.config, stream: self.stream, context: self.encoder_ctx }
    }
}

impl SoftwareView {
    /// An initialised encoder has a context, and a configuration that is
    /// valid.
    pub open spec fn wf(self) -> bool {
        self.stream.initialized ==> self.context is Some && self.config.valid()
    }
}

/// Why the software encoder cannot encode `frame` now, or `None`.
pub open spec fn spec_refusal(session: SoftwareView, frame: crate::capture::FrameView) -> Option<
    Seq<char>,
> {
    match spec_encode_refusal(session.stream) {
        Some(text) => Some(text),
        None => match frame.surface {
            Surface::Host { data } => if spec_to_i420(
                data@,
                frame.format,
                session.config.width,
                session.config.height,
            ) is None {
                Some("Frame data does not hold the picture"@)
            } else {
                None
            },
            _ => Some("Software encoder requires CPU frame data"@),
        },
    }
}

/// The payload that the software encoder emits for `frame`: zeros, as many
/// as the estimate for its planar form says.
pub open spec fn spec_payload(session: SoftwareView, frame: crate::capture::FrameView) -> Seq<u8> {
    let planar = spec_to_i420(
        frame.surface->Host_data@,
        frame.format,
        session.config.width,
        session.config.height,
    )->Some_0;
    Seq::new(
        spec_estimated_size(planar.len(), session.context->Some_0.codec, session.context->Some_0.qp),
        |i: int| 0u8,
    )
}

impl SoftwareEncoder {
    /// An encoder that has not been initialised.
    pub fn new() -> (encoder: Self)
        ensures
            encoder@ == (SoftwareView {
                config: EncoderConfig::spec_default(),
                stream: StreamState::spec_new(),
                context: None,
            }),
            encoder@.wf(),
    {
        SoftwareEncoder {
            config: EncoderConfig::default(),
            stream: StreamState::new(),
            encoder_ctx: None,
        }
    }

    /// An encoder initialised with `config`.
    pub fn with_config(config: EncoderConfig) -> (made: Result<Self, EncoderError>)
        ensures
            made is Ok <==> config.valid(),
            made is Ok ==> made->Ok_0@.wf() && made->Ok_0@ == (SoftwareView {
                config,
                stream: StreamState { initialized: true, ..StreamState::spec_new() },
                context: Some(spec_context(config)),
            }),
            made is Err ==> made->Err_0 is InvalidConfig,
    {
        let mut encoder = SoftwareEncoder::new();
        match encoder.init(&config) {
            Ok(()) => Ok(encoder),
            Err(e) => Err(e),
        }
    }

    /// The name of the x264 preset for a preset.
    pub fn preset_to_x264_preset(preset: QualityPreset) -> (name: &'static str)
        ensures
            name@ == spec_preset_name(preset),
    {
        match preset {
            QualityPreset::P1 => "ultrafast",
            QualityPreset::P2 => "superfast",
            QualityPreset::P3 => "veryfast",
            QualityPreset::P4 => "faster",
            QualityPreset::P5 => "fast",
            QualityPreset::P6 => "medium",
            QualityPreset::P7 => "slow",
        }
    }

    /// The name of the x265 preset for a preset.
    pub fn preset_to_x265_preset(preset: QualityPreset) -> (name: &'static str)
        ensures
            name@ == spec_preset_name(preset),
    {
        SoftwareEncoder::preset_to_x264_preset(preset)
    }

    /// The name of the x264 tuning for a tuning.
    pub fn tuning_to_x264_tune(tuning: Tuning) -> (name: &'static str)
        ensures
            name@ == spec_tune_name(tuning),
    {
        match tuning {
            Tuning::LowLatency => "zerolatency",
            Tuning::Quality => "film",
            Tuning::Balanced => "",
        }
    }

    /// The codec's parameters for the configuration in force.
    pub fn create_software_context(&self) -> (context: SoftwareContext)
        requires
            self@.config.valid(),
        ensures
            context == spec_context(self@.config),
    {
        let preset = match self.config.preset {
            QualityPreset::P1 => 0,
            QualityPreset::P2 => 1,
            QualityPreset::P3 => 2,
            QualityPreset::P4 => 3,
            QualityPreset::P5 => 4,
            QualityPreset::P6 => 6,
            QualityPreset::P7 => 9,
        };
        SoftwareContext {
            width: self.config.width,
            height: self.config.height,
            codec: self.config.codec,
            preset,
            tune: self.config.tuning,
            qp: quantizer(self.config.bitrate, self.config.width, self.config.height, self.config.fps),
        }
    }

    /// Whether the next frame is a key frame.
    pub fn should_generate_keyframe(&self) -> (key: bool)
        ensures
            key <==> self@.stream.next_is_key(self@.config.gop_length),
    {
        self.stream.is_next_key(self.config.gop_length)
    }

    /// Initialises the encoder, once. A second call and an invalid
    /// configuration are refused and change nothing.
    pub fn init(&mut self, config: &EncoderConfig) -> (done: Result<(), EncoderError>)
        requires
            old(self)@.wf(),
        ensures
            final(self)@.wf(),
            done is Ok <==> spec_init_refusal(old(self)@.stream, *config) is None,
            done is Ok ==> final(self)@ == (SoftwareView {
                config: *config,
                stream: StreamState { initialized: true, ..old(self)@.stream },
                context: Some(spec_context(*config)),
            }),
            done is Err ==> final(self)@ == old(self)@ && done->Err_0 is InvalidConfig
                && done->Err_0.detail() == spec_init_refusal(old(self)@.stream, *config)->Some_0,
    {
        match check_init(&self.stream, config) {
            Err(e) => {
                return Err(e);
            },
            Ok(()) => {},
        }
        self.config = *config;
        self.encoder_ctx = Some(self.create_software_context());
        self.stream.initialized = true;
        Ok(())
    }

    /// Initialises the encoder, once.
    pub fn initialize(&mut self, config: EncoderConfig) -> (done: Result<(), EncoderError>)
        requires
            old(self)@.wf(),
        ensures
            final(self)@.wf(),
            done is Ok <==> spec_init_refusal(old(self)@.stream, config) is None,
            done is Ok ==> final(self)@ == (SoftwareView {
                config,
                stream: StreamState { initialized: true, ..old(self)@.stream },
                context: Some(spec_context(config)),
            }),
            done is Err ==> final(self)@ == old(self)@ && done->Err_0 is InvalidConfig
                && done->Err_0.detail() == spec_init_refusal(old(self)@.stream, config)->Some_0,
    {
        self.init(&config)
    }

    /// Converts `frame_data` to planar 4:2:0 and returns the payload that
    /// stands in for its compressed form. Fails where the data cannot hold
    /// the configured picture.
    pub fn encode_frame_software(&self, frame_data: &Vec<u8>, format: PixelFormat) -> (payload:
        Result<Vec<u8>, EncoderError>)
        requires
            self@.context is Some,
        ensures
            payload is Ok <==> spec_to_i420(
                frame_data@,
                format,
                self@.config.width,
                self@.config.height,
            ) is Some,
            payload is Ok ==> payload->Ok_0@ == Seq::new(
                spec_estimated_size(
                    spec_to_i420(
                        frame_data@,
                        format,
                        self@.config.width,
                        self@.config.height,
                    )->Some_0.len(),
                    self@.context->Some_0.codec,
                    self@.context->Some_0.qp,
                ),
                |i: int| 0u8,
            ),
            payload is Err ==> payload->Err_0 is EncodeFailed && payload->Err_0.detail()
                == "Frame data does not hold the picture"@,
    {
        let planar = match to_i420(frame_data, format, self.config.width, self.config.height) {
            None => {
                return Err(
                    EncoderError::EncodeFailed("Frame data does not hold the picture".to_string()),
                );
            },
            Some(planar) => planar,
        };
        let ctx = self.encoder_ctx.unwrap();
        let size = estimated_size(planar.len(), ctx.codec, ctx.qp);
        let payload = vec![0u8; size];
        assert(payload@ =~= Seq::new(size as nat, |i: int| 0u8));
        Ok(payload)
    }

    /// Encodes one frame and emits exactly one encoded frame for it. The
    /// frame must live in host memory and hold the configured picture. A
    /// failure emits nothing and leaves the stream where it was.
    pub fn encode(&mut self, frame: &FrameRef) -> (out: Result<EncodedFrame, EncoderError>)
        requires
            old(self)@.wf(),
        ensures
            final(self)@.wf(),
            out is Ok <==> spec_refusal(old(self)@, frame@) is None,
            out is Ok ==> out->Ok_0@ == old(self)@.stream.spec_emit(
                old(self)@.config,
                frame@,
                spec_payload(old(self)@, frame@),
            ) && final(self)@ == (SoftwareView {
                stream: old(self)@.stream.advanced(old(self)@.config.gop_length),
                ..old(self)@
            }),
            out is Err ==> final(self)@ == old(self)@ && out->Err_0 is EncodeFailed
                && out->Err_0.detail() == spec_refusal(old(self)@, frame@)->Some_0,
    {
        match check_encode(&self.stream) {
            Err(e) => {
                return Err(e);
            },
            Ok(()) => {},
        }
        let frame_data = match frame.data() {
            None => {
                return Err(
                    EncoderError::EncodeFailed("Software encoder requires CPU frame data".to_string()),
                );
            },
            Some(data) => data,
        };
        let payload = match self.encode_frame_software(frame_data, frame.format()) {
            Err(e) => {
                return Err(e);
            },
            Ok(payload) => payload,
        };
        Ok(self.stream.emit(&self.config, frame, payload))
    }

    /// Frames that were held back: none, since every frame is emitted when
    /// it is encoded.
    pub fn flush(&mut self) -> (held: Result<Vec<EncodedFrame>, EncoderError>)
        ensures
            held is Ok,
            held->Ok_0@.len() == 0,
            *final(self) == *old(self),
    {
        Ok(Vec::new())
    }

    /// Sets a new frame rate in the running session, brought into the
    /// range from 15 to 144. The stream stays where it is.
    pub fn set_framerate(&mut self, framerate: u32)
        requires
            old(self)@.wf(),
        ensures
            final(self)@.wf(),
            final(self)@ == (SoftwareView {
                config: EncoderConfig {
                    fps: crate::encoder::spec_framerate(framerate),
                    ..old(self)@.config
                },
                ..old(self)@
            }),
    {
        self.config.fps = crate::encoder::clamp_framerate(framerate);
    }

    /// The counters of the encoder.
    pub fn get_stats(&self) -> (stats: EncoderStats)
        ensures
            stats == (EncoderStats {
                frames_encoded: self@.stream.frame_count,
                keyframes_encoded: self@.stream.keyframes,
                average_encode_time_us: 0,
                current_bitrate: self@.config.bitrate,
                current_framerate: self@.config.fps,
                average_frame_size: 0,
                encode_errors: 0,
            }),
    {
        EncoderStats {
            frames_encoded: self.stream.frame_count,
            keyframes_encoded: self.stream.keyframes,
            average_encode_time_us: 0,
            current_bitrate: self.config.bitrate,
            current_framerate: self.config.fps,
            average_frame_size: 0,
            encode_errors: 0,
        }
    }

    /// Closes the encoder. Nothing is held that needs release.
    pub fn shutdown(&mut self) -> (done: Result<(), EncoderError>)
        ensures
            done is Ok,
            final(self)@ == old(self)@,
    {
        Ok(())
    }

    /// Whether the encoder runs on hardware: it does not.
    pub fn is_hardware(&self) -> (hardware: bool)
        ensures
            !hardware,
    {
        false
    }

    /// Makes the next frame a key frame.
    pub fn request_idr(&mut self)
        ensures
            final(self)@ == (SoftwareView {
                stream: StreamState { force_idr: true, ..old(self)@.stream },
                ..old(self)@
            }),
    {
        self.stream.force_idr = true;
    }

    /// Sets a new target bitrate in the running session: every frame from
    /// now on aims at it, and the quantisation parameter follows. The stream
    /// stays where it is, so no frame is dropped.
    pub fn set_bitrate(&mut self, bitrate: u32)
        requires
            old(self)@.wf(),
        ensures
            final(self)@.wf(),
            final(self)@ == (SoftwareView {
                config: EncoderConfig { bitrate, ..old(self)@.config },
                context: match old(self)@.context {
                    Some(ctx) => Some(
                        SoftwareContext {
                            qp: if ctx.width > 0 && ctx.height > 0 && old(self)@.config.fps > 0 {
                                spec_qp(bitrate, ctx.width, ctx.height, old(self)@.config.fps)
                            } else {
                                ctx.qp
                            },
                            ..ctx
                        },
                    ),
                    None => None,
                },
                ..old(self)@
            }),
    {
        self.config.bitrate = bitrate;
        match self.encoder_ctx {
            Some(ctx) => {
                if ctx.width > 0 && ctx.height > 0 && self.config.fps > 0 {
                    let qp = quantizer(bitrate, ctx.width, ctx.height, self.config.fps);
                    self.encoder_ctx = Some(SoftwareContext { qp, ..ctx });
                }
            },
            None => {},
        }
    }

    /// The name of the encoder.
    pub fn name(&self) -> (name: &'static str)
        ensures
            name@ == "Software-x264"@,
    {
        "Software-x264"
    }

    /// The configuration in force.
    pub fn config(&self) -> (config: &EncoderConfig)
        ensures
            *config == self@.config,
    {
        &self.config
    }
}

/// Collects the configuration of a software encoder step by step.
#[derive(Debug, Clone, Copy)]
pub struct SoftwareEncoderBuilder {
    config: EncoderConfig,
}

impl View for SoftwareEncoderBuilder {
    type V = EncoderConfig;

    closed spec fn view(&self) -> EncoderConfig {
        self.config
    }
}

impl SoftwareEncoderBuilder {
    /// A builder that holds the default configuration.
    pub fn new() -> (builder: Self)
        ensures
            builder@ == EncoderConfig::spec_default(),
    {
        SoftwareEncoderBuilder { config: EncoderConfig::default() }
    }

    /// Sets the size of the picture.
    pub fn resolution(self, width: u32, height: u32) -> (builder: Self)
        ensures
            builder@ == (EncoderConfig { width, height, ..self@ }),
    {
        let mut builder = self;
        builder.config.width = width;
        builder.config.height = height;
        builder
    }

    /// Sets the frame rate.
    pub fn fps(self, fps: u32) -> (builder: Self)
        ensures
            builder@ == (EncoderConfig { fps, ..self@ }),
    {
        let mut builder = self;
        builder.config.fps = fps;
        builder
    }

    /// Sets the target bitrate.
    pub fn bitrate(self, bitrate: u32) -> (builder: Self)
        ensures
            builder@ == (EncoderConfig { bitrate, ..self@ }),
    {
        let mut builder = self;
        builder.config.bitrate = bitrate;
        builder
    }

    /// Sets the codec.
    pub fn codec(self, codec: VideoCodec) -> (builder: Self)
        ensures
            builder@ == (EncoderConfig { codec, ..self@ }),
    {
        let mut builder = self;
        builder.config.codec = codec;
        builder
    }

    /// Sets the preset.
    pub fn preset(self, preset: QualityPreset) -> (builder: Self)
        ensures
            builder@ == (EncoderConfig { preset, ..self@ }),
    {
        let mut builder = self;
        builder.config.preset = preset;
        builder
    }

    /// An encoder initialised with the collected configuration.
    pub fn build(self) -> (made: Result<SoftwareEncoder, EncoderError>)
        ensures
            made is Ok <==> self@.valid(),
            made is Ok ==> made->Ok_0@.wf() && made->Ok_0@ == (SoftwareView {
                config: self@,
                stream: StreamState { initialized: true, ..StreamState::spec_new() },
                context: Some(spec_context(self@)),
            }),
            made is Err ==> made->Err_0 is InvalidConfig,
    {
        SoftwareEncoder::with_config(self.config)
    }
}

impl Default for SoftwareEncoderBuilder {
    fn default() -> (builder: Self)
        ensures
            builder@ == EncoderConfig::spec_default(),
    {
        SoftwareEncoderBuilder::new()
    }
}

} // verus!
