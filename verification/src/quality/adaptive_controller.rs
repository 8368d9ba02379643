//! The adaptive bitrate controller: a four-state machine that reads network
//! statistics and decides, no more often than its interval allows, how the
//! encoder is to change.

use crate::quality::monitor::MonitorView;
use crate::quality::monitor::NetworkMonitor;
use crate::quality::CodecType;
use crate::quality::QualitySettings;
use crate::transport::protocol::NetworkStats;
use vstd::prelude::*;

verus! {

/// The state of the controller.
#[derive(Debug, Clone, Copy, PartialEq, Eq, Structural)]
pub enum ControllerState {
    /// Normal operation.
    Stable,
    /// Quality is being lowered.
    Degrading,
    /// Quality is being restored after an outside event reset the baseline.
    Recovering,
    /// Quality is being raised to find headroom.
    Probing,
}

impl ControllerState {
    /// A description of the state.
    pub open spec fn spec_description(self) -> Seq<char> {
        match self {
            ControllerState::Stable => "网络稳定"@,
            ControllerState::Degrading => "网络恶化"@,
            ControllerState::Recovering => "网络恢复"@,
            ControllerState::Probing => "探测带宽"@,
        }
    }

    /// A description of the state.
    pub fn description(&self) -> (text: &'static str)
        ensures
            text@ == self.spec_description(),
    {
        match self {
            ControllerState::Stable => "网络稳定",
            ControllerState::Degrading => "网络恶化",
            ControllerState::Recovering => "网络恢复",
            ControllerState::Probing => "探测带宽",
        }
    }
}

/// What a decision does to the quality.
#[derive(Debug, Clone, Copy, PartialEq, Eq, Structural)]
pub enum Adjustment {
    /// Nothing.
    Hold,
    /// Lowers it gently.
    Reduce,
    /// Lowers it hard.
    ReduceAggressive,
    /// Raises it a little.
    Increase,
}

/// Milliseconds that must pass from one decision to the next.
pub const ADJUSTMENT_INTERVAL_MS: u64 = 500;

/// Smallest bitrate of a new controller, in bits per second.
pub const DEFAULT_MIN_BITRATE: u32 = 2_000_000;

/// Largest bitrate of a new controller, in bits per second.
pub const DEFAULT_MAX_BITRATE: u32 = 100_000_000;

/// Smallest frame rate that can be set.
pub const MIN_FPS: u32 = 15;

/// Largest frame rate that can be set.
pub const MAX_FPS: u32 = 144;

/// Smallest quantisation parameter that can be set.
pub const MIN_QP: u32 = 10;

/// Largest quantisation parameter that can be set.
pub const MAX_QP: u32 = 51;

/// The limits at which the controller changes its state. Round-trip times
/// and jitter are in microseconds, loss rates in packets per million.
#[derive(Debug, Clone, Copy, PartialEq, Eq, Structural)]
pub struct Thresholds {
    /// Stable: a round trip over this degrades.
    pub degrade_rtt_us: u64,
    /// Stable: a loss over this degrades.
    pub degrade_loss_ppm: u32,
    /// Stable: a round trip under this, with little loss, probes.
    pub probe_rtt_us: u64,
    /// Stable: a loss under this, with a short round trip, probes.
    pub probe_loss_ppm: u32,
    /// Degrading: a round trip over this reduces hard.
    pub severe_rtt_us: u64,
    /// Degrading: a loss over this reduces hard.
    pub severe_loss_ppm: u32,
    /// Degrading: a round trip under this, with little loss, is stable.
    pub settle_rtt_us: u64,
    /// Degrading: a loss under this, with a short round trip, is stable.
    pub settle_loss_ppm: u32,
    /// Probing: a round trip under this, with little jitter, increases.
    pub headroom_rtt_us: u64,
    /// Probing: a jitter under this, with a short round trip, increases.
    pub headroom_jitter_us: u64,
    /// Recovering: a round trip under this, with little loss, increases.
    pub recover_rtt_us: u64,
    /// Recovering: a loss under this, with a short round trip, increases.
    pub recover_loss_ppm: u32,
    /// Recovering: a round trip over this degrades.
    pub relapse_rtt_us: u64,
}

impl Thresholds {
    /// The limits of a new controller: degrade over 100 ms or 2 %, probe
    /// under 20 ms and 0.1 %; reduce hard over 150 ms or 5 %, settle under
    /// 80 ms and 1 %; go on probing under 30 ms and 5 ms of jitter; recover
    /// under 50 ms and 1 %, relapse over 100 ms.
    pub open spec fn spec_default() -> Thresholds {
        Thresholds {
            degrade_rtt_us: 100_000,
            degrade_loss_ppm: 20_000,
            probe_rtt_us: 20_000,
            probe_loss_ppm: 1_000,
            severe_rtt_us: 150_000,
            severe_loss_ppm: 50_000,
            settle_rtt_us: 80_000,
            settle_loss_ppm: 10_000,
            headroom_rtt_us: 30_000,
            headroom_jitter_us: 5_000,
            recover_rtt_us: 50_000,
            recover_loss_ppm: 10_000,
            relapse_rtt_us: 100_000,
        }
    }
}

impl Default for Thresholds {
    fn default() -> (limits: Self)
        ensures
            limits == Thresholds::spec_default(),
    {
        Thresholds {
            degrade_rtt_us: 100_000,
            degrade_loss_ppm: 20_000,
            probe_rtt_us: 20_000,
            probe_loss_ppm: 1_000,
            severe_rtt_us: 150_000,
            severe_loss_ppm: 50_000,
            settle_rtt_us: 80_000,
            settle_loss_ppm: 10_000,
            headroom_rtt_us: 30_000,
            headroom_jitter_us: 5_000,
            recover_rtt_us: 50_000,
            recover_loss_ppm: 10_000,
            relapse_rtt_us: 100_000,
        }
    }
}

/// The next state and the adjustment that the statistics call for, under
/// the given limits.
///
/// Stable: a round trip or a loss over the limit to degrade degrades, with
/// a gentle reduction; a round trip and a loss under the limits to probe
/// probe, with an increase. Degrading: a round trip or a loss over the
/// severe limit reduces hard; a round trip and a loss under the limits to
/// settle are stable again. Probing: a round trip and a jitter under the
/// limits of headroom increase again; anything else is stable. Recovering:
/// a round trip and a loss under the limits to recover increase and are
/// stable; a round trip over the limit of relapse degrades.
pub open spec fn spec_decide(state: ControllerState, stats: NetworkStats, limits: Thresholds) -> (
    ControllerState,
    Adjustment,
) {
    match state {
        ControllerState::Stable => if stats.rtt_us > limits.degrade_rtt_us || stats.loss_ppm
            > limits.degrade_loss_ppm {
            (ControllerState::Degrading, Adjustment::Reduce)
        } else if stats.rtt_us < limits.probe_rtt_us && stats.loss_ppm < limits.probe_loss_ppm {
            (ControllerState::Probing, Adjustment::Increase)
        } else {
            (ControllerState::Stable, Adjustment::Hold)
        },
        ControllerState::Degrading => if stats.rtt_us > limits.severe_rtt_us || stats.loss_ppm
            > limits.severe_loss_ppm {
            (ControllerState::Degrading, Adjustment::ReduceAggressive)
        } else if stats.rtt_us < limits.settle_rtt_us && stats.loss_ppm < limits.settle_loss_ppm {
            (ControllerState::Stable, Adjustment::Hold)
        } else {
            (ControllerState::Degrading, Adjustment::Hold)
        },
        ControllerState::Probing => if stats.rtt_us < limits.headroom_rtt_us && stats.jitter_us
            < limits.headroom_jitter_us {
            (ControllerState::Probing, Adjustment::Increase)
        } else {
            (ControllerState::Stable, Adjustment::Hold)
        },
        ControllerState::Recovering => if stats.rtt_us < limits.recover_rtt_us && stats.loss_ppm
            < limits.recover_loss_ppm {
            (ControllerState::Stable, Adjustment::Increase)
        } else if stats.rtt_us > limits.relapse_rtt_us {
            (ControllerState::Degrading, Adjustment::Hold)
        } else {
            (ControllerState::Recovering, Adjustment::Hold)
        },
    }
}

/// The next state and the adjustment that the statistics call for, under
/// the given limits.
pub fn decide(state: ControllerState, stats: &NetworkStats, limits: &Thresholds) -> (next: (
    ControllerState,
    Adjustment,
))
    ensures
        next == spec_decide(state, *stats, *limits),
{
    match state {
        ControllerState::Stable => if stats.rtt_us > limits.degrade_rtt_us || stats.loss_ppm
            > limits.degrade_loss_ppm {
            (ControllerState::Degrading, Adjustment::Reduce)
        } else if stats.rtt_us < limits.probe_rtt_us && stats.loss_ppm < limits.probe_loss_ppm {
            (ControllerState::Probing, Adjustment::Increase)
        } else {
            (ControllerState::Stable, Adjustment::Hold)
        },
        ControllerState::Degrading => if stats.rtt_us > limits.severe_rtt_us || stats.loss_ppm
            > limits.severe_loss_ppm {
            (ControllerState::Degrading, Adjustment::ReduceAggressive)
        } else if stats.rtt_us < limits.settle_rtt_us && stats.loss_ppm < limits.settle_loss_ppm {
            (ControllerState::Stable, Adjustment::Hold)
        } else {
            (ControllerState::Degrading, Adjustment::Hold)
        },
        ControllerState::Probing => if stats.rtt_us < limits.headroom_rtt_us && stats.jitter_us
            < limits.headroom_jitter_us {
            (ControllerState::Probing, Adjustment::Increase)
        } else {
            (ControllerState::Stable, Adjustment::Hold)
        },
        ControllerState::Recovering => if stats.rtt_us < limits.recover_rtt_us && stats.loss_ppm
            < limits.recover_loss_ppm {
            (ControllerState::Stable, Adjustment::Increase)
        } else if stats.rtt_us > limits.relapse_rtt_us {
            (ControllerState::Degrading, Adjustment::Hold)
        } else {
            (ControllerState::Recovering, Adjustment::Hold)
        },
    }
}

/// `value` brought into the range from `low` to `high`.
pub open spec fn spec_clamp(value: int, low: u32, high: u32) -> u32
    recommends
        low <= high,
{
    if value < low {
        low
    } else if value > high {
        high
    } else {
        value as u32
    }
}

/// `value` brought into the range from `low` to `high`.
pub fn clamp(value: u64, low: u32, high: u32) -> (clamped: u32)
    requires
        low <= high,
    ensures
        clamped == spec_clamp(value as int, low, high),
        low <= clamped <= high,
{
    if value < low as u64 {
        low
    } else if value > high as u64 {
        high
    } else {
        value as u32
    }
}

/// A count raised by one, staying at the largest number.
pub open spec fn spec_count_up(count: u32) -> u32 {
    if count < u32::MAX {
        (count + 1) as u32
    } else {
        count
    }
}

/// The controller as a mathematical value. Times are in milliseconds.
pub struct ControllerView {
    /// What the monitor has recorded.
    pub monitor: MonitorView,
    /// The settings in force.
    pub settings: QualitySettings,
    /// The bitrate aimed at.
    pub target_bitrate: u32,
    /// The state of the machine.
    pub state: ControllerState,
    /// Time of the last decision.
    pub last_adjustment_ms: u64,
    /// Time that must pass from one decision to the next.
    pub adjustment_interval_ms: u64,
    /// Smallest bitrate.
    pub min_bitrate: u32,
    /// Largest bitrate.
    pub max_bitrate: u32,
    /// Increases since the quantisation parameter was last lowered.
    pub improvement_count: u32,
    /// Reductions so far.
    pub degradation_count: u32,
    /// The limits at which the state changes.
    pub thresholds: Thresholds,
}

impl ControllerView {
    /// The monitor is well formed, the bitrate range is not empty, and the
    /// interval between decisions is half a second.
    pub open spec fn wf(self) -> bool {
        self.monitor.wf() && self.min_bitrate <= self.max_bitrate && self.adjustment_interval_ms
            == ADJUSTMENT_INTERVAL_MS
    }

    /// After a gentle reduction: the target falls to nine tenths, within
    /// the bitrate range; the quantisation parameter rises by 2, to 45 at
    /// most; under 10 Mbit/s the resolution falls to 720p. A run of
    /// increases ends.
    pub open spec fn reduced(self) -> ControllerView {
        let target = spec_clamp(self.target_bitrate * 9 / 10, self.min_bitrate, self.max_bitrate);
        ControllerView {
            target_bitrate: target,
            improvement_count: 0,
            degradation_count: spec_count_up(self.degradation_count),
            settings: QualitySettings {
                bitrate: target,
                resolution: if target < 10_000_000 {
                    (1280u32, 720u32)
                } else {
                    self.settings.resolution
                },
                qp: if self.settings.qp + 2 > 45 {
                    45
                } else {
                    (self.settings.qp + 2) as u32
                },
                ..self.settings
            },
            ..self
        }
    }

    /// After a hard reduction: the target falls to seven tenths, within
    /// the bitrate range; the frame rate becomes 30 and the quantisation
    /// parameter 35; under 5 Mbit/s the resolution falls to 480p. A run of
    /// increases ends.
    pub open spec fn reduced_aggressively(self) -> ControllerView {
        let target = spec_clamp(self.target_bitrate * 7 / 10, self.min_bitrate, self.max_bitrate);
        ControllerView {
            target_bitrate: target,
            improvement_count: 0,
            degradation_count: spec_count_up(self.degradation_count),
            settings: QualitySettings {
                bitrate: target,
                fps: 30,
                qp: 35,
                resolution: if target < 5_000_000 {
                    (854u32, 480u32)
                } else {
                    self.settings.resolution
                },
                ..self.settings
            },
            ..self
        }
    }

    /// After an increase: the target rises by a twentieth, within the
    /// bitrate range; over 15 Mbit/s a width under 1920 returns to 1080p;
    /// the third increase of a run lowers the quantisation parameter by 1,
    /// to 20 at least, and a new run begins.
    pub open spec fn increased(self) -> ControllerView {
        let target = spec_clamp(
            self.target_bitrate * 105 / 100,
            self.min_bitrate,
            self.max_bitrate,
        );
        let count = spec_count_up(self.improvement_count);
        ControllerView {
            target_bitrate: target,
            improvement_count: if count > 2 {
                0
            } else {
                count
            },
            settings: QualitySettings {
                bitrate: target,
                resolution: if target > 15_000_000 && self.settings.resolution.0 < 1920 {
                    (1920u32, 1080u32)
                } else {
                    self.settings.resolution
                },
                qp: if count > 2 {
                    if self.settings.qp <= 20 {
                        20
                    } else {
                        (self.settings.qp - 1) as u32
                    }
                } else {
                    self.settings.qp
                },
                ..self.settings
            },
            ..self
        }
    }

    /// After an adjustment of the given kind.
    pub open spec fn adjusted(self, adjustment: Adjustment) -> ControllerView {
        match adjustment {
            Adjustment::Hold => self,
            Adjustment::Reduce => self.reduced(),
            Adjustment::ReduceAggressive => self.reduced_aggressively(),
            Adjustment::Increase => self.increased(),
        }
    }

    /// Whether a decision may be made at `now_ms`: the interval has passed
    /// since the last one.
    pub open spec fn due(self, now_ms: u64) -> bool {
        now_ms >= self.last_adjustment_ms && now_ms - self.last_adjustment_ms
            >= self.adjustment_interval_ms
    }

    /// After the statistics were evaluated at `now_ms`: nothing changes
    /// before a decision is due; otherwise the machine takes its step, the
    /// quality is adjusted as the step says, and the time is remembered.
    pub open spec fn evaluated(self, stats: NetworkStats, now_ms: u64) -> ControllerView {
        if !self.due(now_ms) {
            self
        } else {
            let (state, adjustment) = spec_decide(self.state, stats, self.thresholds);
            ControllerView {
                state,
                last_adjustment_ms: now_ms,
                ..self.adjusted(adjustment)
            }
        }
    }

    /// Whether evaluating the statistics at `now_ms` changes the quality.
    pub open spec fn adjusts(self, stats: NetworkStats, now_ms: u64) -> bool {
        self.due(now_ms) && spec_decide(self.state, stats, self.thresholds).1
            != Adjustment::Hold
    }

    /// After the statistics were recorded in the monitor: the round-trip
    /// time, the bandwidth, and one loss for each whole percent of the loss
    /// rate.
    pub open spec fn recorded(self, stats: NetworkStats) -> ControllerView {
        ControllerView {
            monitor: self.monitor.with_rtt(spec_sample(stats.rtt_us)).with_bandwidth(
                stats.bandwidth_bps,
            ).with_losses((stats.loss_ppm / 10_000) as nat),
            ..self
        }
    }

    /// After the statistics were recorded and evaluated at `now_ms`.
    pub open spec fn updated(self, stats: NetworkStats, now_ms: u64) -> ControllerView {
        self.recorded(stats).evaluated(stats, now_ms)
    }
}

/// A time in microseconds as a sample: the largest sample where it does not
/// fit.
pub open spec fn spec_sample(time_us: u64) -> u32 {
    if time_us > u32::MAX {
        u32::MAX
    } else {
        time_us as u32
    }
}

/// The controller that starts at `initial_bitrate` at time `now_ms`: stable,
/// at 1080p and 60 frames per second with quantisation parameter 25, and a
/// bitrate range from 2 to 100 Mbit/s.
pub open spec fn spec_new(initial_bitrate: u32, now_ms: u64) -> ControllerView {
    ControllerView {
        monitor: MonitorView::empty(),
        settings: QualitySettings {
            bitrate: initial_bitrate,
            fps: 60,
            qp: 25,
            resolution: (1920u32, 1080u32),
            codec: CodecType::H264,
        },
        target_bitrate: initial_bitrate,
        state: ControllerState::Stable,
        last_adjustment_ms: now_ms,
        adjustment_interval_ms: ADJUSTMENT_INTERVAL_MS,
        min_bitrate: DEFAULT_MIN_BITRATE,
        max_bitrate: DEFAULT_MAX_BITRATE,
        improvement_count: 0,
        degradation_count: 0,
        thresholds: Thresholds::spec_default(),
    }
}

/// Two decisions are never less than half a second apart: where the
/// controller decides at one time and, with nothing between, at another,
/// the second time is at least 500 ms after the first.
pub proof fn lemma_rate_limit(
    controller: ControllerView,
    first: NetworkStats,
    first_ms: u64,
    second: NetworkStats,
    second_ms: u64,
)
    requires
        controller.wf(),
        controller.due(first_ms),
        controller.updated(first, first_ms).due(second_ms),
    ensures
        second_ms - first_ms >= 500,
        controller.updated(first, first_ms).last_adjustment_ms == first_ms,
        controller.updated(first, first_ms).updated(second, second_ms).last_adjustment_ms
            == second_ms,
{
}

/// One call of the controller: the statistics that came in and the time.
pub struct Tick {
    /// The statistics.
    pub stats: NetworkStats,
    /// The time of the call, in milliseconds.
    pub now_ms: u64,
}

/// The controller after the first `upto` of the calls.
pub open spec fn spec_after(controller: ControllerView, calls: Seq<Tick>, upto: int) -> ControllerView
    decreases upto,
{
    if upto <= 0 {
        controller
    } else {
        spec_after(controller, calls, upto - 1).updated(
            calls[upto - 1].stats,
            calls[upto - 1].now_ms,
        )
    }
}

/// The times, among the first `upto` of the calls, at which the controller
/// made a decision, in the order of the calls.
pub open spec fn spec_decision_times(
    controller: ControllerView,
    calls: Seq<Tick>,
    upto: int,
) -> Seq<u64>
    decreases upto,
{
    if upto <= 0 {
        Seq::<u64>::empty()
    } else {
        let before = spec_decision_times(controller, calls, upto - 1);
        if spec_after(controller, calls, upto - 1).due(calls[upto - 1].now_ms) {
            before.push(calls[upto - 1].now_ms)
        } else {
            before
        }
    }
}

/// Over any calls whatever, each decision of the controller comes at least
/// 500 ms after the one before it; and the first comes at least 500 ms
/// after the controller was made or reset.
pub proof fn lemma_decisions_apart(controller: ControllerView, calls: Seq<Tick>, upto: int)
    requires
        controller.wf(),
        0 <= upto <= calls.len(),
    ensures
        spec_after(controller, calls, upto).wf(),
        forall|i: int|
            0 <= i < spec_decision_times(controller, calls, upto).len() - 1
                ==> #[trigger] spec_decision_times(controller, calls, upto)[i + 1]
                - spec_decision_times(controller, calls, upto)[i] >= 500,
        spec_decision_times(controller, calls, upto).len() > 0 ==> spec_decision_times(
            controller,
            calls,
            upto,
        )[0] - controller.last_adjustment_ms >= 500,
        spec_after(controller, calls, upto).last_adjustment_ms == if spec_decision_times(
            controller,
            calls,
            upto,
        ).len() == 0 {
            controller.last_adjustment_ms
        } else {
            spec_decision_times(controller, calls, upto).last()
        },
    decreases upto,
{
    if upto > 0 {
        lemma_decisions_apart(controller, calls, upto - 1);
        let before = spec_after(controller, calls, upto - 1);
        let call = calls[upto - 1];
        lemma_losses_keep_wf(
            before.monitor.with_rtt(spec_sample(call.stats.rtt_us)).with_bandwidth(
                call.stats.bandwidth_bps,
            ),
            (call.stats.loss_ppm / 10_000) as nat,
        );
        let times = spec_decision_times(controller, calls, upto);
        let earlier = spec_decision_times(controller, calls, upto - 1);
        if before.due(call.now_ms) {
            assert(times == earlier.push(call.now_ms));
            assert forall|i: int| 0 <= i < times.len() - 1 implies #[trigger] times[i + 1]
                - times[i] >= 500 by {
                if i + 1 < earlier.len() {
                    assert(times[i + 1] == earlier[i + 1]);
                    assert(times[i] == earlier[i]);
                } else {
                    assert(times[i] == earlier.last());
                }
            }
        }
    }
}

/// A call before a decision is due changes no setting and no state.
pub proof fn lemma_no_decision_before_due(
    controller: ControllerView,
    stats: NetworkStats,
    now_ms: u64,
)
    requires
        !controller.due(now_ms),
    ensures
        controller.updated(stats, now_ms).settings == controller.settings,
        controller.updated(stats, now_ms).state == controller.state,
        controller.updated(stats, now_ms).target_bitrate == controller.target_bitrate,
        controller.updated(stats, now_ms).last_adjustment_ms == controller.last_adjustment_ms,
        !controller.adjusts(stats, now_ms),
{
}

/// From the stable state and under the limits of a new controller, a
/// round trip over 150 ms with a loss over 5 % at two decisions in a row
/// leaves the controller degrading with a target of at most seven tenths
/// of the one it started from, provided that the smallest bitrate allows
/// so low a target.
pub proof fn lemma_sustained_congestion(
    controller: ControllerView,
    first: NetworkStats,
    first_ms: u64,
    second: NetworkStats,
    second_ms: u64,
)
    requires
        controller.wf(),
        controller.thresholds == Thresholds::spec_default(),
        controller.state == ControllerState::Stable,
        first.rtt_us > 150_000 && first.loss_ppm > 50_000,
        second.rtt_us > 150_000 && second.loss_ppm > 50_000,
        controller.due(first_ms),
        controller.updated(first, first_ms).due(second_ms),
        controller.min_bitrate * 10 <= controller.target_bitrate * 7,
    ensures
        controller.updated(first, first_ms).state == ControllerState::Degrading,
        controller.updated(first, first_ms).updated(second, second_ms).state
            == ControllerState::Degrading,
        controller.updated(first, first_ms).updated(second, second_ms).target_bitrate * 10
            <= controller.target_bitrate * 7,
        controller.updated(first, first_ms).updated(second, second_ms).settings.fps == 30,
        controller.updated(first, first_ms).updated(second, second_ms).settings.qp == 35,
{
    let one = controller.updated(first, first_ms);
    let two = one.updated(second, second_ms);
    assert(one.target_bitrate == spec_clamp(
        controller.target_bitrate * 9 / 10,
        controller.min_bitrate,
        controller.max_bitrate,
    ));
    assert(two.target_bitrate == spec_clamp(
        one.target_bitrate * 7 / 10,
        controller.min_bitrate,
        controller.max_bitrate,
    ));
}

impl ControllerView {
    /// The frame rate and the quantisation parameter are within what can be
    /// set.
    pub open spec fn in_envelope(self) -> bool {
        MIN_FPS <= self.settings.fps <= MAX_FPS && MIN_QP <= self.settings.qp <= MAX_QP
    }
}

/// Whatever statistics come in, the frame rate stays within 15 and 144 and
/// the quantisation parameter within 10 and 51; and a bitrate that was
/// adjusted lies within the bitrate range.
pub proof fn lemma_envelope(controller: ControllerView, stats: NetworkStats, now_ms: u64)
    requires
        controller.wf(),
        controller.in_envelope(),
    ensures
        controller.updated(stats, now_ms).wf(),
        controller.updated(stats, now_ms).in_envelope(),
        controller.adjusts(stats, now_ms) ==> controller.min_bitrate <= controller.updated(
            stats,
            now_ms,
        ).settings.bitrate <= controller.max_bitrate,
{
    lemma_losses_keep_wf(controller.monitor.with_rtt(spec_sample(stats.rtt_us)).with_bandwidth(
        stats.bandwidth_bps,
    ), (stats.loss_ppm / 10_000) as nat);
}

/// Recording losses keeps a monitor well formed.
pub proof fn lemma_losses_keep_wf(monitor: MonitorView, count: nat)
    requires
        monitor.wf(),
    ensures
        monitor.with_losses(count).wf(),
    decreases count,
{
    if count > 0 {
        lemma_losses_keep_wf(monitor, (count - 1) as nat);
    }
}

/// Every setting that the controller produces stays in its envelope: the
/// bitrate within the bitrate range after any adjustment.
pub proof fn lemma_adjusted_in_range(controller: ControllerView, adjustment: Adjustment)
    requires
        controller.wf(),
        adjustment != Adjustment::Hold,
    ensures
        controller.min_bitrate <= controller.adjusted(adjustment).settings.bitrate
            <= controller.max_bitrate,
        controller.adjusted(adjustment).settings.bitrate == controller.adjusted(
            adjustment,
        ).target_bitrate,
        controller.adjusted(adjustment).wf(),
{
}

/// The adaptive bitrate controller.
#[derive(Debug)]
pub struct AdaptiveBitrateController {
    monitor: NetworkMonitor,
    current_settings: QualitySettings,
    target_bitrate: u32,
    state: ControllerState,
    last_adjustment: u64,
    adjustment_interval: u64,
    min_bitrate: u32,
    max_bitrate: u32,
    improvement_count: u32,
    degradation_count: u32,
    thresholds: Thresholds,
}

impl View for AdaptiveBitrateController {
    type V = ControllerView;

    closed spec fn view(&self) -> ControllerView {
        ControllerView {
            monitor: self.monitor@,
            settings: self.current_settings,
            target_bitrate: self.target_bitrate,
            state: self.state,
            last_adjustment_ms: self.last_adjustment,
            adjustment_interval_ms: self.adjustment_interval,
            min_bitrate: self.min_bitrate,
            max_bitrate: self.max_bitrate,
            improvement_count: self.improvement_count,
            degradation_count: self.degradation_count,
            thresholds: self.thresholds,
        }
    }
}

impl AdaptiveBitrateController {
    /// A controller that starts at `initial_bitrate` at time `now_ms`.
    pub fn new(initial_bitrate: u32, now_ms: u64) -> (controller: Self)
        ensures
            controller@ == spec_new(initial_bitrate, now_ms),
            controller@.wf(),
    {
        AdaptiveBitrateController {
            monitor: NetworkMonitor::new(),
            current_settings: QualitySettings {
                bitrate: initial_bitrate,
                fps: 60,
                qp: 25,
                resolution: (1920, 1080),
                codec: CodecType::H264,
            },
            target_bitrate: initial_bitrate,
            state: ControllerState::Stable,
            last_adjustment: now_ms,
            adjustment_interval: ADJUSTMENT_INTERVAL_MS,
            min_bitrate: DEFAULT_MIN_BITRATE,
            max_bitrate: DEFAULT_MAX_BITRATE,
            improvement_count: 0,
            degradation_count: 0,
            thresholds: Thresholds::default(),
        }
    }

    /// Sets the limits at which the state changes.
    pub fn set_thresholds(&mut self, limits: Thresholds)
        ensures
            final(self)@ == (ControllerView { thresholds: limits, ..old(self)@ }),
    {
        self.thresholds = limits;
    }

    /// The limits at which the state changes.
    pub fn thresholds(&self) -> (limits: Thresholds)
        ensures
            limits == self@.thresholds,
    {
        self.thresholds
    }

    /// Takes in new statistics at time `now_ms`: records them in the
    /// monitor and, where a decision is due, lets the machine take its step
    /// on them. Returns the new settings where the quality was adjusted, for
    /// the encoder to apply, and `None` otherwise.
    pub fn update_stats(&mut self, stats: NetworkStats, now_ms: u64) -> (apply: Option<
        QualitySettings,
    >)
        requires
            old(self)@.wf(),
        ensures
            final(self)@.wf(),
            final(self)@ == old(self)@.updated(stats, now_ms),
            apply is Some <==> old(self)@.adjusts(stats, now_ms),
            apply is Some ==> apply->Some_0 == final(self)@.settings,
    {
        let sample: u32 = if stats.rtt_us > u32::MAX as u64 {
            u32::MAX
        } else {
            stats.rtt_us as u32
        };
        self.monitor.record_rtt(sample);
        self.monitor.record_bandwidth_sample(stats.bandwidth_bps);
        let losses: u32 = stats.loss_ppm / 10_000;
        let ghost base = self.monitor@;
        let mut i: u32 = 0;
        while i < losses
            invariant
                i <= losses,
                self.monitor@.wf(),
                self.monitor@ == base.with_losses(i as nat),
                self.current_settings == old(self).current_settings,
                self.target_bitrate == old(self).target_bitrate,
                self.state == old(self).state,
                self.last_adjustment == old(self).last_adjustment,
                self.adjustment_interval == old(self).adjustment_interval,
                self.min_bitrate == old(self).min_bitrate,
                self.max_bitrate == old(self).max_bitrate,
                self.improvement_count == old(self).improvement_count,
                self.degradation_count == old(self).degradation_count,
                self.thresholds == old(self).thresholds,
            decreases losses - i,
        {
            self.monitor.record_loss();
            i += 1;
        }
        self.evaluate(&stats, now_ms)
    }

    /// Evaluates what the monitor has measured, at time `now_ms`, as
    /// `update_stats` evaluates the statistics it is handed.
    pub fn evaluate_network(&mut self, now_ms: u64) -> (apply: Option<QualitySettings>)
        requires
            old(self)@.wf(),
        ensures
            final(self)@.wf(),
            final(self)@ == old(self)@.evaluated(old(self)@.monitor.measured(), now_ms),
            apply is Some <==> old(self)@.adjusts(old(self)@.monitor.measured(), now_ms),
            apply is Some ==> apply->Some_0 == final(self)@.settings,
    {
        let stats = self.monitor.get_stats();
        self.evaluate(&stats, now_ms)
    }

    /// Lets the machine take its step on `stats` where a decision is due
    /// at `now_ms`.
    pub fn evaluate(&mut self, stats: &NetworkStats, now_ms: u64) -> (apply: Option<
        QualitySettings,
    >)
        requires
            old(self)@.wf(),
        ensures
            final(self)@.wf(),
            final(self)@ == old(self)@.evaluated(*stats, now_ms),
            apply is Some <==> old(self)@.adjusts(*stats, now_ms),
            apply is Some ==> apply->Some_0 == final(self)@.settings,
    {
        if now_ms < self.last_adjustment || now_ms - self.last_adjustment
            < self.adjustment_interval {
            return None;
        }
        let (state, adjustment) = decide(self.state, stats, &self.thresholds);
        self.state = state;
        self.last_adjustment = now_ms;
        match adjustment {
            Adjustment::Hold => None,
            Adjustment::Reduce => Some(self.reduce_quality()),
            Adjustment::ReduceAggressive => Some(self.reduce_quality_aggressive()),
            Adjustment::Increase => Some(self.increase_quality()),
        }
    }

    /// Lowers the quality gently and returns the new settings.
    pub fn reduce_quality(&mut self) -> (apply: QualitySettings)
        requires
            old(self)@.wf(),
        ensures
            final(self)@.wf(),
            final(self)@ == old(self)@.reduced(),
            apply == final(self)@.settings,
    {
        self.target_bitrate = clamp(
            self.target_bitrate as u64 * 9 / 10,
            self.min_bitrate,
            self.max_bitrate,
        );
        self.current_settings.bitrate = self.target_bitrate;
        self.improvement_count = 0;
        if self.degradation_count < u32::MAX {
            self.degradation_count = self.degradation_count + 1;
        }
        if self.current_settings.bitrate < 10_000_000 {
            self.current_settings.resolution = (1280, 720);
        }
        self.current_settings.qp = if self.current_settings.qp as u64 + 2 > 45 {
            45
        } else {
            self.current_settings.qp + 2
        };
        self.current_settings
    }

    /// Lowers the quality hard and returns the new settings.
    pub fn reduce_quality_aggressive(&mut self) -> (apply: QualitySettings)
        requires
            old(self)@.wf(),
        ensures
            final(self)@.wf(),
            final(self)@ == old(self)@.reduced_aggressively(),
            apply == final(self)@.settings,
    {
        self.target_bitrate = clamp(
            self.target_bitrate as u64 * 7 / 10,
            self.min_bitrate,
            self.max_bitrate,
        );
        self.current_settings.bitrate = self.target_bitrate;
        self.current_settings.fps = 30;
        self.current_settings.qp = 35;
        self.improvement_count = 0;
        if self.degradation_count < u32::MAX {
            self.degradation_count = self.degradation_count + 1;
        }
        if self.current_settings.bitrate < 5_000_000 {
            self.current_settings.resolution = (854, 480);
        }
        self.current_settings
    }

    /// Raises the quality a little and returns the new settings.
    pub fn increase_quality(&mut self) -> (apply: QualitySettings)
        requires
            old(self)@.wf(),
        ensures
            final(self)@.wf(),
            final(self)@ == old(self)@.increased(),
            apply == final(self)@.settings,
    {
        self.target_bitrate = clamp(
            self.target_bitrate as u64 * 105 / 100,
            self.min_bitrate,
            self.max_bitrate,
        );
        self.current_settings.bitrate = self.target_bitrate;
        if self.improvement_count < u32::MAX {
            self.improvement_count = self.improvement_count + 1;
        }
        if self.target_bitrate > 15_000_000 && self.current_settings.resolution.0 < 1920 {
            self.current_settings.resolution = (1920, 1080);
        }
        if self.improvement_count > 2 {
            self.current_settings.qp = if self.current_settings.qp <= 20 {
                20
            } else {
                self.current_settings.qp - 1
            };
            self.improvement_count = 0;
        }
        self.current_settings
    }

    /// The settings in force.
    pub fn get_quality(&self) -> (settings: QualitySettings)
        ensures
            settings == self@.settings,
    {
        self.current_settings
    }

    /// The bitrate in force.
    pub fn current_bitrate(&self) -> (bitrate: u32)
        ensures
            bitrate == self@.settings.bitrate,
    {
        self.current_settings.bitrate
    }

    /// The frame rate in force.
    pub fn current_fps(&self) -> (fps: u32)
        ensures
            fps == self@.settings.fps,
    {
        self.current_settings.fps
    }

    /// The quantisation parameter in force.
    pub fn current_qp(&self) -> (qp: u32)
        ensures
            qp == self@.settings.qp,
    {
        self.current_settings.qp
    }

    /// The state of the machine.
    pub fn state(&self) -> (state: ControllerState)
        ensures
            state == self@.state,
    {
        self.state
    }

    /// Sets the smallest bitrate. The largest rises with it where it would
    /// fall under it.
    pub fn set_min_bitrate(&mut self, bitrate: u32)
        requires
            old(self)@.wf(),
        ensures
            final(self)@.wf(),
            final(self)@ == (ControllerView {
                min_bitrate: bitrate,
                max_bitrate: if old(self)@.max_bitrate < bitrate {
                    bitrate
                } else {
                    old(self)@.max_bitrate
                },
                ..old(self)@
            }),
    {
        self.min_bitrate = bitrate;
        if self.max_bitrate < bitrate {
            self.max_bitrate = bitrate;
        }
    }

    /// Sets the largest bitrate. The smallest falls with it where it would
    /// rise over it.
    pub fn set_max_bitrate(&mut self, bitrate: u32)
        requires
            old(self)@.wf(),
        ensures
            final(self)@.wf(),
            final(self)@ == (ControllerView {
                max_bitrate: bitrate,
                min_bitrate: if old(self)@.min_bitrate > bitrate {
                    bitrate
                } else {
                    old(self)@.min_bitrate
                },
                ..old(self)@
            }),
    {
        self.max_bitrate = bitrate;
        if self.min_bitrate > bitrate {
            self.min_bitrate = bitrate;
        }
    }

    /// Records a round-trip time, in microseconds.
    pub fn record_rtt(&mut self, rtt_us: u32)
        requires
            old(self)@.wf(),
        ensures
            final(self)@.wf(),
            final(self)@ == (ControllerView {
                monitor: old(self)@.monitor.with_rtt(rtt_us),
                ..old(self)@
            }),
    {
        self.monitor.record_rtt(rtt_us);
    }

    /// Records a lost packet.
    pub fn record_loss(&mut self)
        requires
            old(self)@.wf(),
        ensures
            final(self)@.wf(),
            final(self)@ == (ControllerView {
                monitor: old(self)@.monitor.with_loss(),
                ..old(self)@
            }),
    {
        self.monitor.record_loss();
    }

    /// Records a bandwidth sample, in bits per second.
    pub fn record_bandwidth(&mut self, bandwidth_bps: u32)
        requires
            old(self)@.wf(),
        ensures
            final(self)@.wf(),
            final(self)@ == (ControllerView {
                monitor: old(self)@.monitor.with_bandwidth(bandwidth_bps),
                ..old(self)@
            }),
    {
        self.monitor.record_bandwidth_sample(bandwidth_bps);
    }

    /// What the monitor has measured.
    pub fn network_stats(&self) -> (stats: NetworkStats)
        requires
            self@.wf(),
        ensures
            stats == self@.monitor.measured(),
    {
        self.monitor.get_stats()
    }

    /// Returns the controller to its start at 20 Mbit/s, at time `now_ms`.
    /// The bitrate range stays.
    pub fn reset(&mut self, now_ms: u64)
        requires
            old(self)@.wf(),
        ensures
            final(self)@.wf(),
            final(self)@ == (ControllerView {
                monitor: MonitorView::empty(),
                state: ControllerState::Stable,
                target_bitrate: 20_000_000,
                settings: QualitySettings::spec_default(),
                improvement_count: 0,
                degradation_count: 0,
                last_adjustment_ms: now_ms,
                ..old(self)@
            }),
    {
        self.monitor.reset();
        self.state = ControllerState::Stable;
        self.target_bitrate = 20_000_000;
        self.current_settings = QualitySettings::default();
        self.improvement_count = 0;
        self.degradation_count = 0;
        self.last_adjustment = now_ms;
    }

    /// Sets the bitrate, brought into the bitrate range, and returns the
    /// new settings for the encoder to apply.
    pub fn set_bitrate(&mut self, bitrate: u32) -> (apply: QualitySettings)
        requires
            old(self)@.wf(),
        ensures
            final(self)@.wf(),
            final(self)@ == (ControllerView {
                target_bitrate: spec_clamp(
                    bitrate as int,
                    old(self)@.min_bitrate,
                    old(self)@.max_bitrate,
                ),
                settings: QualitySettings {
                    bitrate: spec_clamp(
                        bitrate as int,
                        old(self)@.min_bitrate,
                        old(self)@.max_bitrate,
                    ),
                    ..old(self)@.settings
                },
                ..old(self)@
            }),
            apply == final(self)@.settings,
    {
        self.target_bitrate = clamp(bitrate as u64, self.min_bitrate, self.max_bitrate);
        self.current_settings.bitrate = self.target_bitrate;
        self.current_settings
    }

    /// Sets the frame rate, brought into the range from 15 to 144.
    pub fn set_fps(&mut self, fps: u32)
        ensures
            final(self)@ == (ControllerView {
                settings: QualitySettings {
                    fps: spec_clamp(fps as int, MIN_FPS, MAX_FPS),
                    ..old(self)@.settings
                },
                ..old(self)@
            }),
    {
        self.current_settings.fps = clamp(fps as u64, MIN_FPS, MAX_FPS);
    }

    /// Sets the quantisation parameter, brought into the range from 10 to
    /// 51.
    pub fn set_qp(&mut self, qp: u32)
        ensures
            final(self)@ == (ControllerView {
                settings: QualitySettings {
                    qp: spec_clamp(qp as int, MIN_QP, MAX_QP),
                    ..old(self)@.settings
                },
                ..old(self)@
            }),
    {
        self.current_settings.qp = clamp(qp as u64, MIN_QP, MAX_QP);
    }

    /// The monitor.
    pub fn monitor(&self) -> (monitor: &NetworkMonitor)
        ensures
            monitor@ == self@.monitor,
    {
        &self.monitor
    }
}

/// The quality controller of a session.
pub type QualityController = AdaptiveBitrateController;

impl Default for AdaptiveBitrateController {
    fn default() -> (controller: Self)
        ensures
            controller@ == spec_new(20_000_000, 0),
    {
        AdaptiveBitrateController::new(20_000_000, 0)
    }
}

} // verus!
