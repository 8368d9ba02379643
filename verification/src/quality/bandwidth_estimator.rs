//! The bandwidth estimator: what arrives within the last second, smoothed
//! into an estimate that stays within set bounds.

use crate::arith::lemma_mul_le;
use crate::quality::adaptive_controller::clamp;
use crate::quality::adaptive_controller::spec_clamp;
use crate::quality::monitor::insert_sorted;
use crate::quality::monitor::spec_insert_sorted;
use std::collections::VecDeque;
use vstd::prelude::*;

verus! {

/// One measurement of bandwidth.
#[derive(Debug, Clone, Copy, PartialEq, Eq, Structural)]
pub struct BandwidthSample {
    /// Bandwidth, in bits per second.
    pub bandwidth_bps: u32,
    /// Time of the measurement, in microseconds.
    pub timestamp: u64,
    /// Bytes that were measured.
    pub bytes: u64,
}

/// Bytes that arrived at one time.
#[derive(Debug, Clone, Copy, PartialEq, Eq, Structural)]
pub struct Arrival {
    /// Time of the arrival, in microseconds.
    pub time_us: u64,
    /// Bytes that arrived.
    pub bytes: u64,
}

/// Microseconds of the window in which arrivals count.
pub const WINDOW_US: u64 = 1_000_000;

/// The estimate of a new estimator, in bits per second.
pub const INITIAL_ESTIMATE: u32 = 10_000_000;

/// Arrivals from which on the percentile estimates look at the arrivals.
pub const PERCENTILE_ARRIVALS: usize = 10;

/// The arrivals without those at the front that are older than `cutoff_us`.
pub open spec fn spec_trim(arrivals: Seq<Arrival>, cutoff_us: u64) -> Seq<Arrival>
    decreases arrivals.len(),
{
    if arrivals.len() > 0 && arrivals[0].time_us < cutoff_us {
        spec_trim(arrivals.skip(1), cutoff_us)
    } else {
        arrivals
    }
}

/// The bytes of the first `upto` arrivals together, staying at the largest
/// number.
pub open spec fn spec_total_bytes(arrivals: Seq<Arrival>, upto: int) -> u64
    decreases upto,
{
    if upto <= 0 {
        0
    } else {
        let before = spec_total_bytes(arrivals, upto - 1);
        if before + arrivals[upto - 1].bytes > u64::MAX {
            u64::MAX
        } else {
            (before + arrivals[upto - 1].bytes) as u64
        }
    }
}

/// Bits per second of `bytes` bytes in `duration_us` microseconds, the
/// largest rate where it does not fit.
pub open spec fn spec_rate(bytes: u64, duration_us: u64) -> u32
    recommends
        duration_us > 0,
{
    let bps = (bytes * 8_000_000) / (duration_us as int);
    if bps > u32::MAX {
        u32::MAX
    } else {
        bps as u32
    }
}

/// The estimate after a sample: the sample weighs `alpha` thousandths, the
/// estimate before it the rest, and the result stays within the bounds.
pub open spec fn spec_smoothed(estimate: u32, sample: u32, alpha: u32, low: u32, high: u32) -> u32
    recommends
        alpha <= 1000,
        low <= high,
{
    spec_clamp((alpha * sample + (1000 - alpha) * estimate) / 1000, low, high)
}

/// Seven tenths of an estimate.
pub open spec fn spec_cautious(estimate: u32) -> u32 {
    (estimate * 7 / 10) as u32
}

/// The rates between the arrivals up to position `upto`, each taken from
/// the growth in bytes and the time from one arrival to the next, in rising
/// order. A pair with no time between is left out.
pub open spec fn spec_pair_rates(arrivals: Seq<Arrival>, upto: int) -> Seq<u64>
    decreases upto,
{
    if upto <= 1 {
        Seq::<u64>::empty()
    } else {
        let before = spec_pair_rates(arrivals, upto - 1);
        let a = arrivals[upto - 2];
        let b = arrivals[upto - 1];
        if b.time_us > a.time_us {
            spec_insert_sorted(
                before,
                spec_rate(
                    if b.bytes >= a.bytes {
                        (b.bytes - a.bytes) as u64
                    } else {
                        0
                    },
                    (b.time_us - a.time_us) as u64,
                ) as u64,
            )
        } else {
            before
        }
    }
}

/// The bytes of the arrivals from position `from` up to position `upto`
/// together, staying at the largest number.
pub open spec fn spec_span_bytes(arrivals: Seq<Arrival>, from: int, upto: int) -> u64
    decreases upto - from,
{
    if upto <= from {
        0
    } else {
        let before = spec_span_bytes(arrivals, from, upto - 1);
        if before + arrivals[upto - 1].bytes > u64::MAX {
            u64::MAX
        } else {
            (before + arrivals[upto - 1].bytes) as u64
        }
    }
}

/// The trend of the arrivals: the bytes of the later half less those of
/// the earlier half, divided by the arrivals in a half, the fraction cut
/// off.
pub open spec fn spec_trend(arrivals: Seq<Arrival>) -> int {
    if arrivals.len() < PERCENTILE_ARRIVALS {
        0
    } else {
        let half = arrivals.len() as int / 2;
        let first = spec_span_bytes(arrivals, 0, half);
        let second = spec_span_bytes(arrivals, half, arrivals.len() as int);
        if second >= first {
            (second - first) / half
        } else {
            -((first - second) / half)
        }
    }
}

/// The estimator as a mathematical value.
pub struct EstimatorView {
    /// Arrivals of the last second, oldest first.
    pub arrivals: Seq<Arrival>,
    /// The estimate, in bits per second.
    pub estimated_bandwidth: u32,
    /// Weight of a new sample, in thousandths.
    pub alpha: u32,
    /// Time of the last update, in microseconds.
    pub last_update: u64,
    /// Smallest estimate.
    pub min_estimate: u32,
    /// Largest estimate.
    pub max_estimate: u32,
}

impl EstimatorView {
    /// The weight is a share and the bounds are in order.
    pub open spec fn wf(self) -> bool {
        self.alpha <= 1000 && self.min_estimate <= self.max_estimate
    }

    /// The estimator at its start at time `now_us`.
    pub open spec fn start(now_us: u64) -> EstimatorView {
        EstimatorView {
            arrivals: Seq::<Arrival>::empty(),
            estimated_bandwidth: INITIAL_ESTIMATE,
            alpha: 200,
            last_update: now_us,
            min_estimate: 500_000,
            max_estimate: 1_000_000_000,
        }
    }

    /// After a sample, in bits per second, was added at `now_us`.
    pub open spec fn with_sample(self, bandwidth_bps: u32, now_us: u64) -> EstimatorView {
        EstimatorView {
            estimated_bandwidth: spec_smoothed(
                self.estimated_bandwidth,
                bandwidth_bps,
                self.alpha,
                self.min_estimate,
                self.max_estimate,
            ),
            last_update: now_us,
            ..self
        }
    }

    /// After the estimate was brought up to date with the arrivals: with
    /// two or more arrivals over some time, their rate is added as a
    /// sample.
    pub open spec fn refreshed(self, now_us: u64) -> EstimatorView {
        if self.arrivals.len() < 2 || self.arrivals.last().time_us <= self.arrivals[0].time_us {
            self
        } else {
            self.with_sample(
                spec_rate(
                    spec_total_bytes(self.arrivals, self.arrivals.len() as int),
                    (self.arrivals.last().time_us - self.arrivals[0].time_us) as u64,
                ),
                now_us,
            )
        }
    }

    /// After `bytes` bytes arrived at `now_us`: the arrival joins, arrivals
    /// older than a second leave, and the estimate is brought up to date.
    pub open spec fn with_arrival(self, bytes: u64, now_us: u64) -> EstimatorView {
        EstimatorView {
            arrivals: spec_trim(
                self.arrivals.push(Arrival { time_us: now_us, bytes }),
                if now_us >= WINDOW_US {
                    (now_us - WINDOW_US) as u64
                } else {
                    0
                },
            ),
            ..self
        }.refreshed(now_us)
    }
}

/// The bandwidth estimator.
#[derive(Debug)]
pub struct BandwidthEstimator {
    arrival_times: VecDeque<Arrival>,
    estimated_bandwidth: u32,
    alpha: u32,
    last_update: u64,
    min_estimate: u32,
    max_estimate: u32,
}

impl View for BandwidthEstimator {
    type V = EstimatorView;

    closed spec fn view(&self) -> EstimatorView {
        EstimatorView {
            arrivals: self.arrival_times@,
            estimated_bandwidth: self.estimated_bandwidth,
            alpha: self.alpha,
            last_update: self.last_update,
            min_estimate: self.min_estimate,
            max_estimate: self.max_estimate,
        }
    }
}

/// Bits per second of `bytes` bytes in `duration_us` microseconds.
pub fn rate(bytes: u64, duration_us: u64) -> (bps: u32)
    requires
        duration_us > 0,
    ensures
        bps == spec_rate(bytes, duration_us),
{
    let bps: u128 = (bytes as u128 * 8_000_000) / duration_us as u128;
    if bps > u32::MAX as u128 {
        u32::MAX
    } else {
        bps as u32
    }
}

impl BandwidthEstimator {
    /// An estimator at its start at time `now_us`.
    pub fn new(now_us: u64) -> (estimator: Self)
        ensures
            estimator@ == EstimatorView::start(now_us),
            estimator@.wf(),
    {
        BandwidthEstimator {
            arrival_times: VecDeque::new(),
            estimated_bandwidth: INITIAL_ESTIMATE,
            alpha: 200,
            last_update: now_us,
            min_estimate: 500_000,
            max_estimate: 1_000_000_000,
        }
    }

    /// Records that `bytes` bytes arrived at `now_us`.
    pub fn record_arrival(&mut self, bytes: u64, now_us: u64)
        requires
            old(self)@.wf(),
        ensures
            final(self)@.wf(),
            final(self)@ == old(self)@.with_arrival(bytes, now_us),
    {
        self.arrival_times.push_back(Arrival { time_us: now_us, bytes });
        let cutoff: u64 = if now_us >= WINDOW_US {
            now_us - WINDOW_US
        } else {
            0
        };
        let ghost pushed = self.arrival_times@;
        while self.arrival_times.len() > 0 && self.arrival_times[0].time_us < cutoff
            invariant
                spec_trim(pushed, cutoff) == spec_trim(self.arrival_times@, cutoff),
                self.estimated_bandwidth == old(self).estimated_bandwidth,
                self.alpha == old(self).alpha,
                self.last_update == old(self).last_update,
                self.min_estimate == old(self).min_estimate,
                self.max_estimate == old(self).max_estimate,
            decreases self.arrival_times@.len(),
        {
            let ghost before = self.arrival_times@;
            let _ = self.arrival_times.pop_front();
            assert(self.arrival_times@ =~= before.skip(1));
        }
        self.update_estimate(now_us);
    }

    /// Brings the estimate up to date with the arrivals.
    pub fn update_estimate(&mut self, now_us: u64)
        requires
            old(self)@.wf(),
        ensures
            final(self)@.wf(),
            final(self)@ == old(self)@.refreshed(now_us),
    {
        let n = self.arrival_times.len();
        if n < 2 {
            return ;
        }
        let first_time = self.arrival_times[0].time_us;
        let last_time = self.arrival_times[n - 1].time_us;
        if last_time <= first_time {
            return ;
        }
        let mut total: u64 = 0;
        let mut i: usize = 0;
        while i < n
            invariant
                i <= n,
                n == self.arrival_times@.len(),
                total == spec_total_bytes(self.arrival_times@, i as int),
            decreases n - i,
        {
            let bytes = self.arrival_times[i].bytes;
            total = if bytes > u64::MAX - total {
                u64::MAX
            } else {
                total + bytes
            };
            i += 1;
        }
        let instant = rate(total, last_time - first_time);
        self.add_sample(instant, now_us);
    }

    /// Adds a sample, in bits per second, at time `now_us`.
    pub fn add_sample(&mut self, bandwidth_bps: u32, now_us: u64)
        requires
            old(self)@.wf(),
        ensures
            final(self)@.wf(),
            final(self)@ == old(self)@.with_sample(bandwidth_bps, now_us),
            final(self)@.min_estimate <= final(self)@.estimated_bandwidth
                <= final(self)@.max_estimate,
    {
        proof {
            lemma_mul_le(self.alpha as int, bandwidth_bps as int, 1000, u32::MAX as int);
            lemma_mul_le(
                1000 - self.alpha as int,
                self.estimated_bandwidth as int,
                1000,
                u32::MAX as int,
            );
        }
        let smoothed: u64 = (self.alpha as u64 * bandwidth_bps as u64 + (1000 - self.alpha) as u64
            * self.estimated_bandwidth as u64) / 1000;
        self.estimated_bandwidth = clamp(smoothed, self.min_estimate, self.max_estimate);
        self.last_update = now_us;
    }

    /// Adds the rate of `bytes_sent` bytes sent in `duration_us`
    /// microseconds as a sample; nothing where no time has passed.
    pub fn update(&mut self, bytes_sent: usize, duration_us: u64, now_us: u64)
        requires
            old(self)@.wf(),
        ensures
            final(self)@.wf(),
            final(self)@ == if duration_us == 0 {
                old(self)@
            } else {
                old(self)@.with_sample(spec_rate(bytes_sent as u64, duration_us), now_us)
            },
    {
        if duration_us == 0 {
            return ;
        }
        let instant = rate(bytes_sent as u64, duration_us);
        self.add_sample(instant, now_us);
    }

    /// The estimate, in bits per second.
    pub fn get_estimate(&self) -> (estimate: u32)
        ensures
            estimate == self@.estimated_bandwidth,
    {
        self.estimated_bandwidth
    }

    /// The estimate, in bits per second.
    pub fn estimate(&self) -> (estimate: u32)
        ensures
            estimate == self@.estimated_bandwidth,
    {
        self.get_estimate()
    }

    /// The rates between one arrival and the next, in rising order.
    pub fn pair_rates(&self) -> (rates: Vec<u64>)
        ensures
            rates@ == spec_pair_rates(self@.arrivals, self@.arrivals.len() as int),
    {
        let mut rates: Vec<u64> = Vec::new();
        let n = self.arrival_times.len();
        let mut i: usize = 1;
        while i < n
            invariant
                1 <= i,
                n == self.arrival_times@.len(),
                i <= n || n == 0,
                rates@ == spec_pair_rates(self.arrival_times@, if n == 0 {
                    0
                } else {
                    i as int
                }),
            decreases n - i,
        {
            let a = self.arrival_times[i - 1];
            let b = self.arrival_times[i];
            if b.time_us > a.time_us {
                let grown: u64 = if b.bytes >= a.bytes {
                    b.bytes - a.bytes
                } else {
                    0
                };
                insert_sorted(&mut rates, rate(grown, b.time_us - a.time_us) as u64);
            }
            i += 1;
        }
        rates
    }

    /// A cautious estimate: the rate that nine tenths of the rates between
    /// arrivals reach, or seven tenths of the estimate while there are
    /// fewer than ten arrivals or no rate.
    pub fn conservative_estimate(&self) -> (estimate: u32)
        ensures
            estimate == {
                let rates = spec_pair_rates(self@.arrivals, self@.arrivals.len() as int);
                if self@.arrivals.len() < PERCENTILE_ARRIVALS || rates.len() == 0 {
                    spec_cautious(self@.estimated_bandwidth)
                } else {
                    spec_clamp(rates[rates.len() as int / 10] as int, 0, u32::MAX)
                }
            },
    {
        let cautious: u32 = (self.estimated_bandwidth as u64 * 7 / 10) as u32;
        if self.arrival_times.len() < PERCENTILE_ARRIVALS {
            return cautious;
        }
        let rates = self.pair_rates();
        if rates.len() == 0 {
            return cautious;
        }
        clamp(rates[rates.len() / 10], 0, u32::MAX)
    }

    /// A hopeful estimate: the rate that one tenth of the rates between
    /// arrivals reach, or the estimate while there are fewer than ten
    /// arrivals or no rate.
    pub fn optimistic_estimate(&self) -> (estimate: u32)
        ensures
            estimate == {
                let rates = spec_pair_rates(self@.arrivals, self@.arrivals.len() as int);
                if self@.arrivals.len() < PERCENTILE_ARRIVALS || rates.len() == 0 {
                    self@.estimated_bandwidth
                } else {
                    spec_clamp(rates[rates.len() as int * 9 / 10] as int, 0, u32::MAX)
                }
            },
    {
        if self.arrival_times.len() < PERCENTILE_ARRIVALS {
            return self.estimated_bandwidth;
        }
        let rates = self.pair_rates();
        if rates.len() == 0 {
            return self.estimated_bandwidth;
        }
        let index: usize = ((rates.len() as u128 * 9) / 10) as usize;
        clamp(rates[index], 0, u32::MAX)
    }

    /// The trend of the arrivals, in bytes per arrival: the mean of the
    /// later half less the mean of the earlier half, its fraction cut off;
    /// 0 while there are fewer than ten arrivals.
    pub fn trend(&self) -> (drift: i128)
        ensures
            drift == spec_trend(self@.arrivals),
    {
        let n = self.arrival_times.len();
        if n < PERCENTILE_ARRIVALS {
            return 0;
        }
        let half = n / 2;
        let mut first: u64 = 0;
        let mut second: u64 = 0;
        let mut i: usize = 0;
        while i < n
            invariant
                i <= n,
                n == self.arrival_times@.len(),
                half == n / 2,
                first == spec_span_bytes(self.arrival_times@, 0, if i < half {
                    i as int
                } else {
                    half as int
                }),
                second == spec_span_bytes(self.arrival_times@, half as int, if i < half {
                    half as int
                } else {
                    i as int
                }),
            decreases n - i,
        {
            let bytes = self.arrival_times[i].bytes;
            if i < half {
                first = if bytes > u64::MAX - first {
                    u64::MAX
                } else {
                    first + bytes
                };
            } else {
                second = if bytes > u64::MAX - second {
                    u64::MAX
                } else {
                    second + bytes
                };
            }
            i += 1;
        }
        if second >= first {
            ((second - first) / half as u64) as i128
        } else {
            -(((first - second) / half as u64) as i128)
        }
    }

    /// Sets the weight of a new sample, in thousandths, 1000 at most.
    pub fn set_alpha(&mut self, alpha: u32)
        requires
            old(self)@.wf(),
        ensures
            final(self)@.wf(),
            final(self)@ == (EstimatorView {
                alpha: if alpha > 1000 {
                    1000
                } else {
                    alpha
                },
                ..old(self)@
            }),
    {
        self.alpha = if alpha > 1000 {
            1000
        } else {
            alpha
        };
    }

    /// Sets the bounds of the estimate and brings the estimate within them.
    /// An upper bound under the lower one is raised to it.
    pub fn set_bounds(&mut self, min: u32, max: u32)
        requires
            old(self)@.wf(),
        ensures
            final(self)@.wf(),
            final(self)@ == {
                let high = if max < min {
                    min
                } else {
                    max
                };
                EstimatorView {
                    min_estimate: min,
                    max_estimate: high,
                    estimated_bandwidth: spec_clamp(
                        old(self)@.estimated_bandwidth as int,
                        min,
                        high,
                    ),
                    ..old(self)@
                }
            },
    {
        self.min_estimate = min;
        self.max_estimate = if max < min {
            min
        } else {
            max
        };
        self.estimated_bandwidth = clamp(
            self.estimated_bandwidth as u64,
            self.min_estimate,
            self.max_estimate,
        );
    }

    /// Arrivals that are held.
    pub fn sample_count(&self) -> (count: usize)
        ensures
            count == self@.arrivals.len(),
    {
        self.arrival_times.len()
    }

    /// Time of the last update, in microseconds.
    pub fn last_update(&self) -> (at: u64)
        ensures
            at == self@.last_update,
    {
        self.last_update
    }

    /// Forgets the arrivals and returns to the first estimate, at time
    /// `now_us`. Weight and bounds stay.
    pub fn reset(&mut self, now_us: u64)
        ensures
            final(self)@ == (EstimatorView {
                arrivals: Seq::<Arrival>::empty(),
                estimated_bandwidth: INITIAL_ESTIMATE,
                last_update: now_us,
                ..old(self)@
            }),
    {
        self.arrival_times.clear();
        self.estimated_bandwidth = INITIAL_ESTIMATE;
        self.last_update = now_us;
    }
}

/// An estimator at its start at time `now_us`.
pub fn create_bandwidth_estimator(now_us: u64) -> (estimator: BandwidthEstimator)
    ensures
        estimator@ == EstimatorView::start(now_us),
        estimator@.wf(),
{
    BandwidthEstimator::new(now_us)
}

} // verus!
