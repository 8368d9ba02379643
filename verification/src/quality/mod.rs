//! Quality control: what the network is measured to do, and how the encoder
//! is driven by it.

pub mod adaptive_controller;
pub mod bandwidth_estimator;
pub mod monitor;

use crate::quality::adaptive_controller::AdaptiveBitrateController;
use vstd::prelude::*;

verus! {

/// The codec that the quality settings name.
#[derive(Debug, Clone, Copy, PartialEq, Eq, Structural)]
pub enum CodecType {
    H264,
    HEVC,
    AV1,
}

impl CodecType {
    /// The name of the codec.
    pub open spec fn spec_name(self) -> Seq<char> {
        match self {
            CodecType::H264 => "H264"@,
            CodecType::HEVC => "HEVC"@,
            CodecType::AV1 => "AV1"@,
        }
    }

    /// The name of the codec.
    pub fn as_str(&self) -> (name: &'static str)
        ensures
            name@ == self.spec_name(),
    {
        match self {
            CodecType::H264 => "H264",
            CodecType::HEVC => "HEVC",
            CodecType::AV1 => "AV1",
        }
    }
}

/// What the quality controller asks of the encoder.
#[derive(Debug, Clone, Copy, PartialEq, Eq)]
pub struct QualitySettings {
    /// Target bitrate, in bits per second.
    pub bitrate: u32,
    /// Target frame rate.
    pub fps: u32,
    /// Quantisation parameter; smaller means better pictures.
    pub qp: u32,
    /// Resolution, width then height.
    pub resolution: (u32, u32),
    /// Codec.
    pub codec: CodecType,
}

impl QualitySettings {
    /// The settings of a new session: 20 Mbit/s, 60 frames per second,
    /// quantisation parameter 28, 1080p, H.264.
    pub open spec fn spec_default() -> QualitySettings {
        QualitySettings {
            bitrate: 20_000_000,
            fps: 60,
            qp: 28,
            resolution: (1920u32, 1080u32),
            codec: CodecType::H264,
        }
    }
}

impl Default for QualitySettings {
    fn default() -> (settings: Self)
        ensures
            settings == QualitySettings::spec_default(),
    {
        QualitySettings {
            bitrate: 20_000_000,
            fps: 60,
            qp: 28,
            resolution: (1920, 1080),
            codec: CodecType::H264,
        }
    }
}

/// Microseconds in a millisecond.
pub const US_PER_MS: u64 = 1000;

/// One percent, in lost packets per million.
pub const PPM_PER_PERCENT: u32 = 10_000;

/// The position of percentile `permille` in `len` sorted samples: that share
/// of the length, rounded down, and the last position at most.
pub open spec fn spec_percentile_index(len: nat, permille: u32) -> int
    recommends
        len > 0,
{
    let index = (len * permille) / 1000;
    if index > len - 1 {
        len - 1
    } else {
        index as int
    }
}

/// The value at percentile `permille`, in thousandths, of samples sorted in
/// rising order; 0 for no samples.
pub fn percentile(sorted_data: &[u64], permille: u32) -> (value: u64)
    ensures
        value == if sorted_data@.len() == 0 {
            0
        } else {
            sorted_data@[spec_percentile_index(sorted_data@.len(), permille)]
        },
{
    if sorted_data.len() == 0 {
        return 0;
    }
    if sorted_data.len() == 1 {
        return sorted_data[0];
    }
    proof {
        crate::arith::lemma_mul_le(
            sorted_data@.len() as int,
            permille as int,
            usize::MAX as int,
            u32::MAX as int,
        );
        assert(usize::MAX * u32::MAX <= u128::MAX) by (nonlinear_arith);
    }
    let index: u128 = (sorted_data.len() as u128 * permille as u128) / 1000;
    let last: usize = sorted_data.len() - 1;
    if index > last as u128 {
        sorted_data[last]
    } else {
        sorted_data[index as usize]
    }
}

/// Points for a round-trip time: 40 under 20 ms, 30 under 50 ms, 20 under
/// 100 ms, else 10.
pub open spec fn spec_rtt_score(rtt_us: u64) -> int {
    if rtt_us < 20_000 {
        40
    } else if rtt_us < 50_000 {
        30
    } else if rtt_us < 100_000 {
        20
    } else {
        10
    }
}

/// Points for a loss rate: 30 under 0.1 %, 20 under 1 %, 10 under 5 %, else
/// none.
pub open spec fn spec_loss_score(loss_ppm: u32) -> int {
    if loss_ppm < 1_000 {
        30
    } else if loss_ppm < 10_000 {
        20
    } else if loss_ppm < 50_000 {
        10
    } else {
        0
    }
}

/// Points for a jitter: 30 under 5 ms, 20 under 15 ms, 10 under 30 ms, else
/// none.
pub open spec fn spec_jitter_score(jitter_us: u64) -> int {
    if jitter_us < 5_000 {
        30
    } else if jitter_us < 15_000 {
        20
    } else if jitter_us < 30_000 {
        10
    } else {
        0
    }
}

/// The quality of a network from 0 to 100: the points for its round-trip
/// time, its loss rate and its jitter together.
pub fn calculate_quality_score(rtt_us: u64, loss_ppm: u32, jitter_us: u64) -> (score: u8)
    ensures
        score == spec_rtt_score(rtt_us) + spec_loss_score(loss_ppm) + spec_jitter_score(jitter_us),
        10 <= score <= 100,
{
    let rtt_score: u8 = if rtt_us < 20_000 {
        40
    } else if rtt_us < 50_000 {
        30
    } else if rtt_us < 100_000 {
        20
    } else {
        10
    };
    let loss_score: u8 = if loss_ppm < 1_000 {
        30
    } else if loss_ppm < 10_000 {
        20
    } else if loss_ppm < 50_000 {
        10
    } else {
        0
    };
    let jitter_score: u8 = if jitter_us < 5_000 {
        30
    } else if jitter_us < 15_000 {
        20
    } else if jitter_us < 30_000 {
        10
    } else {
        0
    };
    rtt_score + loss_score + jitter_score
}

/// A quality controller that starts at `initial_bitrate`, at time `now_ms`.
pub fn create_quality_controller(initial_bitrate: u32, now_ms: u64) -> (controller:
    AdaptiveBitrateController)
    ensures
        controller@ == crate::quality::adaptive_controller::spec_new(initial_bitrate, now_ms),
        controller@.wf(),
{
    AdaptiveBitrateController::new(initial_bitrate, now_ms)
}

} // verus!
