//! The network monitor: sliding windows of round-trip times, of their
//! variation and of bandwidth samples, and what they add up to.

use crate::arith::lemma_mul_le;
use crate::quality::percentile;
use crate::quality::spec_percentile_index;
use crate::transport::protocol::NetworkStats;
use std::collections::VecDeque;
use vstd::prelude::*;

verus! {

/// Round-trip and variation samples that a window keeps.
pub const RTT_WINDOW: usize = 100;

/// Bandwidth samples that a window keeps.
pub const BANDWIDTH_WINDOW: usize = 60;

/// Bandwidth that is assumed while there is no sample, in bits per second.
pub const DEFAULT_BANDWIDTH: u32 = 10_000_000;

/// The sum of the samples.
pub open spec fn spec_sum(samples: Seq<u32>) -> int
    decreases samples.len(),
{
    if samples.len() == 0 {
        0
    } else {
        spec_sum(samples.drop_last()) + samples.last()
    }
}

/// The sum of the squares of the samples.
pub open spec fn spec_sum_squares(samples: Seq<u32>) -> int
    decreases samples.len(),
{
    if samples.len() == 0 {
        0
    } else {
        spec_sum_squares(samples.drop_last()) + samples.last() * samples.last()
    }
}

/// The sum of samples is at most their number times the largest value.
pub proof fn lemma_sum_bound(samples: Seq<u32>)
    ensures
        0 <= spec_sum(samples) <= samples.len() * u32::MAX,
        0 <= spec_sum_squares(samples) <= samples.len() * (u32::MAX * u32::MAX),
    decreases samples.len(),
{
    if samples.len() > 0 {
        lemma_sum_bound(samples.drop_last());
        let x = samples.last() as int;
        lemma_mul_le(x, x, u32::MAX as int, u32::MAX as int);
        assert(samples.len() * u32::MAX == (samples.len() - 1) * u32::MAX + u32::MAX)
            by (nonlinear_arith);
        assert(samples.len() * (u32::MAX * u32::MAX) == (samples.len() - 1) * (u32::MAX
            * u32::MAX) + u32::MAX * u32::MAX) by (nonlinear_arith);
    }
}

/// The mean of the samples, rounded down; 0 for no samples.
pub open spec fn spec_mean(samples: Seq<u32>) -> int {
    if samples.len() == 0 {
        0
    } else {
        spec_sum(samples) / (samples.len() as int)
    }
}

/// The variance of the samples, rounded down: the mean of the squares less
/// the square of the mean, over the exact sums.
pub open spec fn spec_variance(samples: Seq<u32>) -> int {
    let n = samples.len() as int;
    let spread = n * spec_sum_squares(samples) - spec_sum(samples) * spec_sum(samples);
    if n == 0 || spread <= 0 {
        0
    } else {
        spread / (n * n)
    }
}

/// Whether `root` is the square root of `value`, rounded down.
pub open spec fn is_sqrt(value: int, root: int) -> bool {
    0 <= root && root * root <= value < (root + 1) * (root + 1)
}

/// A number has one square root, rounded down.
pub proof fn lemma_sqrt_unique(value: int, a: int, b: int)
    requires
        is_sqrt(value, a),
        is_sqrt(value, b),
    ensures
        a == b,
{
    if a < b {
        lemma_mul_le(a + 1, a + 1, b, b);
    } else if b < a {
        lemma_mul_le(b + 1, b + 1, a, a);
    }
}

/// The square root of `value`, rounded down.
pub open spec fn spec_sqrt(value: int) -> int {
    choose|root: int| is_sqrt(value, root)
}

/// The standard deviation of the samples, rounded down; 0 for fewer than
/// two samples.
pub open spec fn spec_deviation(samples: Seq<u32>) -> int {
    if samples.len() < 2 {
        0
    } else {
        spec_sqrt(spec_variance(samples))
    }
}

/// The square root of `value`, rounded down.
pub fn isqrt(value: u128) -> (root: u64)
    ensures
        is_sqrt(value as int, root as int),
        root == spec_sqrt(value as int),
{
    let mut lo: u128 = 0;
    let mut hi: u128 = 0x1_0000_0000_0000_0000;
    assert(hi * hi > value) by {
        assert(0x1_0000_0000_0000_0000int * 0x1_0000_0000_0000_0000int
            == 0x1_0000_0000_0000_0000_0000_0000_0000_0000int) by (nonlinear_arith);
    }
    while hi - lo > 1
        invariant
            lo < hi <= 0x1_0000_0000_0000_0000,
            lo * lo <= value,
            hi * hi > value,
        decreases hi - lo,
    {
        let mid: u128 = lo + (hi - lo) / 2;
        proof {
            lemma_mul_le(
                mid as int,
                mid as int,
                0xFFFF_FFFF_FFFF_FFFF,
                0xFFFF_FFFF_FFFF_FFFF,
            );
            assert(0xFFFF_FFFF_FFFF_FFFFint * 0xFFFF_FFFF_FFFF_FFFFint < u128::MAX)
                by (nonlinear_arith);
        }
        if mid * mid <= value {
            lo = mid;
        } else {
            hi = mid;
        }
    }
    assert(hi == lo + 1);
    proof {
        assert(is_sqrt(value as int, lo as int));
        lemma_sqrt_unique(value as int, lo as int, spec_sqrt(value as int));
    }
    lo as u64
}

/// The window after `sample` was recorded: the sample is added at the end,
/// and the oldest sample leaves where the window would hold more than
/// `capacity`.
pub open spec fn spec_push_window<T>(window: Seq<T>, sample: T, capacity: nat) -> Seq<T> {
    if window.len() + 1 > capacity {
        window.push(sample).subrange(1, window.len() as int + 1)
    } else {
        window.push(sample)
    }
}

/// The samples in rising order with `sample` put in its place: after the
/// samples that are not larger.
pub open spec fn spec_insert_sorted(sorted: Seq<u64>, sample: u64) -> Seq<u64>
    decreases sorted.len(),
{
    if sorted.len() == 0 {
        seq![sample]
    } else if sorted.last() <= sample {
        sorted.push(sample)
    } else {
        spec_insert_sorted(sorted.drop_last(), sample).push(sorted.last())
    }
}

/// The samples in rising order, in microseconds.
pub open spec fn spec_sorted(samples: Seq<u32>) -> Seq<u64>
    decreases samples.len(),
{
    if samples.len() == 0 {
        Seq::<u64>::empty()
    } else {
        spec_insert_sorted(spec_sorted(samples.drop_last()), samples.last() as u64)
    }
}

/// Whether the values rise, equal values allowed.
pub open spec fn is_rising(values: Seq<u64>) -> bool {
    forall|i: int, j: int| 0 <= i <= j < values.len() ==> values[i] <= values[j]
}

/// Putting a sample in its place keeps the order and adds one value.
pub proof fn lemma_insert_sorted(sorted: Seq<u64>, sample: u64)
    requires
        is_rising(sorted),
    ensures
        is_rising(spec_insert_sorted(sorted, sample)),
        spec_insert_sorted(sorted, sample).len() == sorted.len() + 1,
        forall|i: int|
            0 <= i < sorted.len() + 1 ==> #[trigger] spec_insert_sorted(sorted, sample)[i]
                == sample || exists|j: int|
                0 <= j < sorted.len() && spec_insert_sorted(sorted, sample)[i] == sorted[j],
    decreases sorted.len(),
{
    if sorted.len() == 0 {
    } else if sorted.last() <= sample {
        let r = sorted.push(sample);
        assert forall|i: int| 0 <= i < r.len() implies #[trigger] r[i] == sample || exists|j: int|
            0 <= j < sorted.len() && r[i] == sorted[j] by {
            if i < sorted.len() {
                assert(r[i] == sorted[i]);
            }
        }
    } else {
        let rest = sorted.drop_last();
        assert(is_rising(rest));
        lemma_insert_sorted(rest, sample);
        let inner = spec_insert_sorted(rest, sample);
        let r = inner.push(sorted.last());
        assert forall|i: int, j: int| 0 <= i <= j < r.len() implies r[i] <= r[j] by {
            if j == r.len() - 1 && i < j {
                assert(inner[i] == sample || exists|k: int|
                    0 <= k < rest.len() && inner[i] == rest[k]);
                if inner[i] != sample {
                    let k = choose|k: int| 0 <= k < rest.len() && inner[i] == rest[k];
                    assert(rest[k] == sorted[k]);
                    assert(sorted[k] <= sorted[sorted.len() - 1]);
                }
            }
        }
        assert forall|i: int| 0 <= i < r.len() implies #[trigger] r[i] == sample || exists|j: int|
            0 <= j < sorted.len() && r[i] == sorted[j] by {
            if i == r.len() - 1 {
                assert(r[i] == sorted[sorted.len() - 1]);
            } else {
                assert(inner[i] == sample || exists|k: int|
                    0 <= k < rest.len() && inner[i] == rest[k]);
                if inner[i] != sample {
                    let k = choose|k: int| 0 <= k < rest.len() && inner[i] == rest[k];
                    assert(rest[k] == sorted[k]);
                }
            }
        }
    }
}

/// Putting a sample in its place adds the sample and nothing else: the
/// result holds each value as often as the values before and the sample
/// together.
pub proof fn lemma_insert_sorted_holds(sorted: Seq<u64>, sample: u64)
    ensures
        spec_insert_sorted(sorted, sample).to_multiset() == sorted.to_multiset().insert(sample),
    decreases sorted.len(),
{
    sorted.to_multiset_ensures();
    if sorted.len() == 0 {
        assert(seq![sample] =~= sorted.push(sample));
    } else if sorted.last() <= sample {
    } else {
        let rest = sorted.drop_last();
        lemma_insert_sorted_holds(rest, sample);
        rest.to_multiset_ensures();
        spec_insert_sorted(rest, sample).to_multiset_ensures();
        assert(sorted =~= rest.push(sorted.last()));
        assert(spec_insert_sorted(rest, sample).push(sorted.last()).to_multiset()
            =~= rest.to_multiset().insert(sample).insert(sorted.last()));
        assert(rest.push(sorted.last()).to_multiset() =~= rest.to_multiset().insert(
            sorted.last(),
        ));
        assert(rest.to_multiset().insert(sample).insert(sorted.last())
            =~= rest.to_multiset().insert(sorted.last()).insert(sample));
    }
}

/// The samples as 64-bit values, in their order.
pub open spec fn spec_widened(samples: Seq<u32>) -> Seq<u64> {
    Seq::new(samples.len(), |i: int| samples[i] as u64)
}

/// The samples in rising order are the samples rearranged: they hold each
/// value as often as the samples do.
pub proof fn lemma_sorted_rearranges(samples: Seq<u32>)
    ensures
        spec_sorted(samples).to_multiset() == spec_widened(samples).to_multiset(),
    decreases samples.len(),
{
    if samples.len() == 0 {
        assert(spec_widened(samples) =~= Seq::<u64>::empty());
    } else {
        let rest = samples.drop_last();
        lemma_sorted_rearranges(rest);
        lemma_insert_sorted_holds(spec_sorted(rest), samples.last() as u64);
        spec_widened(rest).to_multiset_ensures();
        assert(spec_widened(samples) =~= spec_widened(rest).push(samples.last() as u64));
    }
}

/// The samples in rising order are as many as the samples, and they rise.
pub proof fn lemma_sorted(samples: Seq<u32>)
    ensures
        spec_sorted(samples).len() == samples.len(),
        is_rising(spec_sorted(samples)),
    decreases samples.len(),
{
    if samples.len() > 0 {
        lemma_sorted(samples.drop_last());
        lemma_insert_sorted(spec_sorted(samples.drop_last()), samples.last() as u64);
    }
}

/// Puts `sample` in its place among values in rising order.
pub fn insert_sorted(sorted: &mut Vec<u64>, sample: u64)
    ensures
        final(sorted)@ == spec_insert_sorted(old(sorted)@, sample),
{
    let ghost before = sorted@;
    let mut at: usize = sorted.len();
    proof {
        assert(before.take(at as int) =~= before);
        assert(spec_insert_sorted(before, sample) + before.skip(at as int) =~= spec_insert_sorted(
            before,
            sample,
        ));
    }
    while at > 0 && sorted[at - 1] > sample
        invariant
            at <= before.len(),
            sorted@ == before,
            spec_insert_sorted(before, sample) == spec_insert_sorted(
                before.take(at as int),
                sample,
            ) + before.skip(at as int),
        decreases at,
    {
        proof {
            let head = before.take(at as int);
            assert(head.last() == before[at - 1]);
            assert(head.drop_last() =~= before.take(at - 1));
            assert(spec_insert_sorted(head, sample) == spec_insert_sorted(
                before.take(at - 1),
                sample,
            ).push(before[at - 1]));
            assert(spec_insert_sorted(before.take(at - 1), sample).push(before[at - 1])
                + before.skip(at as int) =~= spec_insert_sorted(before.take(at - 1), sample)
                + before.skip(at - 1));
        }
        at -= 1;
    }
    proof {
        let head = before.take(at as int);
        if at > 0 {
            assert(head.last() == before[at - 1]);
        }
        assert(spec_insert_sorted(head, sample) == head.push(sample));
        assert(before.take(0) =~= Seq::<u64>::empty());
    }
    sorted.insert(at, sample);
    assert(sorted@ =~= before.take(at as int).push(sample) + before.skip(at as int));
}

/// The samples in rising order.
pub fn sorted(samples: &VecDeque<u32>) -> (rising: Vec<u64>)
    ensures
        rising@ == spec_sorted(samples@),
{
    let mut rising: Vec<u64> = Vec::new();
    let mut i: usize = 0;
    while i < samples.len()
        invariant
            i <= samples@.len(),
            rising@ == spec_sorted(samples@.take(i as int)),
        decreases samples@.len() - i,
    {
        proof {
            assert(samples@.take(i + 1).drop_last() =~= samples@.take(i as int));
        }
        insert_sorted(&mut rising, samples[i] as u64);
        i += 1;
    }
    assert(samples@.take(samples@.len() as int) =~= samples@);
    rising
}

/// The sample at percentile `permille`, in thousandths, of the samples; 0
/// for no samples.
pub open spec fn spec_percentile(samples: Seq<u32>, permille: u32) -> u64 {
    if samples.len() == 0 {
        0
    } else {
        spec_sorted(samples)[spec_percentile_index(samples.len(), permille)]
    }
}

/// The sample at percentile `permille`, in thousandths, of the samples.
pub fn percentile_of(samples: &VecDeque<u32>, permille: u32) -> (value: u64)
    ensures
        value == spec_percentile(samples@, permille),
{
    proof {
        lemma_sorted(samples@);
    }
    let rising = sorted(samples);
    percentile(rising.as_slice(), permille)
}

/// The state of a network monitor.
#[derive(Debug)]
pub struct NetworkMonitor {
    rtt_samples: VecDeque<u32>,
    loss_count: u32,
    total_packets: u32,
    bandwidth_samples: VecDeque<u32>,
}

/// A monitor as a mathematical value. Times are in microseconds.
pub struct MonitorView {
    /// The most recent round-trip times, oldest first.
    pub rtt_samples: Seq<u32>,
    /// Packets recorded as lost.
    pub loss_count: u32,
    /// Packets recorded in all.
    pub total_packets: u32,
    /// The most recent bandwidth samples, oldest first.
    pub bandwidth_samples: Seq<u32>,
}

impl View for NetworkMonitor {
    type V = MonitorView;

    closed spec fn view(&self) -> MonitorView {
        MonitorView {
            rtt_samples: self.rtt_samples@,
            loss_count: self.loss_count,
            total_packets: self.total_packets,
            bandwidth_samples: self.bandwidth_samples@,
        }
    }
}

/// A count raised by one, staying at the largest number.
pub open spec fn spec_bump(count: u32) -> u32 {
    if count < u32::MAX {
        (count + 1) as u32
    } else {
        count
    }
}

/// A time difference in microseconds as a sample: 0 where the clock went
/// back, the largest sample where it does not fit.
pub open spec fn spec_elapsed(from: u64, to: u64) -> u32 {
    if to <= from {
        0
    } else if to - from > u32::MAX {
        u32::MAX
    } else {
        (to - from) as u32
    }
}

impl MonitorView {
    /// The monitor that has recorded nothing.
    pub open spec fn empty() -> MonitorView {
        MonitorView {
            rtt_samples: Seq::<u32>::empty(),
            loss_count: 0,
            total_packets: 0,
            bandwidth_samples: Seq::<u32>::empty(),
        }
    }

    /// The windows hold no more than their capacity, and no more packets
    /// are lost than were recorded.
    pub open spec fn wf(self) -> bool {
        &&& self.rtt_samples.len() <= RTT_WINDOW
        &&& self.bandwidth_samples.len() <= BANDWIDTH_WINDOW
        &&& self.loss_count <= self.total_packets
    }

    /// After a round-trip time was recorded: it joins its window.
    pub open spec fn with_rtt(self, rtt_us: u32) -> MonitorView {
        MonitorView {
            rtt_samples: spec_push_window(self.rtt_samples, rtt_us, RTT_WINDOW as nat),
            ..self
        }
    }

    /// After a packet sent at `sent_us` was recorded at `now_us`: the time
    /// between joins the round-trip window, and the packet is counted.
    pub open spec fn with_packet(self, sent_us: u64, now_us: u64) -> MonitorView {
        MonitorView {
            rtt_samples: spec_push_window(
                self.rtt_samples,
                spec_elapsed(sent_us, now_us),
                RTT_WINDOW as nat,
            ),
            total_packets: spec_bump(self.total_packets),
            ..self
        }
    }

    /// After a loss was recorded.
    pub open spec fn with_loss(self) -> MonitorView {
        if self.total_packets < u32::MAX {
            MonitorView {
                loss_count: (self.loss_count + 1) as u32,
                total_packets: (self.total_packets + 1) as u32,
                ..self
            }
        } else {
            self
        }
    }

    /// After `count` losses were recorded.
    pub open spec fn with_losses(self, count: nat) -> MonitorView
        decreases count,
    {
        if count == 0 {
            self
        } else {
            self.with_losses((count - 1) as nat).with_loss()
        }
    }

    /// After a delivered packet was recorded.
    pub open spec fn with_success(self) -> MonitorView {
        MonitorView { total_packets: spec_bump(self.total_packets), ..self }
    }

    /// After a bandwidth sample was recorded.
    pub open spec fn with_bandwidth(self, bandwidth_bps: u32) -> MonitorView {
        MonitorView {
            bandwidth_samples: spec_push_window(
                self.bandwidth_samples,
                bandwidth_bps,
                BANDWIDTH_WINDOW as nat,
            ),
            ..self
        }
    }

    /// The mean round-trip time, in microseconds.
    pub open spec fn rtt_us(self) -> int {
        spec_mean(self.rtt_samples)
    }

    /// The loss rate, in lost packets per million recorded.
    pub open spec fn loss_ppm(self) -> int {
        if self.total_packets == 0 {
            0
        } else {
            (self.loss_count * 1_000_000) / (self.total_packets as int)
        }
    }

    /// The bandwidth estimate: the mean of the samples, or the default.
    pub open spec fn bandwidth_bps(self) -> int {
        if self.bandwidth_samples.len() == 0 {
            DEFAULT_BANDWIDTH as int
        } else {
            spec_mean(self.bandwidth_samples)
        }
    }

    /// What the monitor has measured: the mean round-trip time, as jitter
    /// the standard deviation of the round-trip times where there are two
    /// or more, the loss rate and the bandwidth estimate. The counters of
    /// traffic are zero: the monitor does not see them.
    pub open spec fn measured(self) -> NetworkStats {
        NetworkStats {
            rtt_us: self.rtt_us() as u64,
            jitter_us: spec_deviation(self.rtt_samples) as u64,
            loss_ppm: self.loss_ppm() as u32,
            bandwidth_bps: self.bandwidth_bps() as u32,
            bytes_sent: 0,
            bytes_received: 0,
            packets_sent: 0,
            packets_received: 0,
            packets_lost: 0,
        }
    }
}

/// Samples that a window can hold at most.
pub const MAX_WINDOW: usize = 65_535;

/// Sums the samples and their squares.
pub fn sums(samples: &VecDeque<u32>) -> (totals: (u64, u128))
    requires
        samples@.len() <= MAX_WINDOW,
    ensures
        totals.0 == spec_sum(samples@),
        totals.1 == spec_sum_squares(samples@),
{
    let mut sum: u64 = 0;
    let mut squares: u128 = 0;
    let mut i: usize = 0;
    while i < samples.len()
        invariant
            i <= samples@.len() <= MAX_WINDOW,
            sum == spec_sum(samples@.take(i as int)),
            squares == spec_sum_squares(samples@.take(i as int)),
        decreases samples@.len() - i,
    {
        proof {
            lemma_sum_bound(samples@.take(i as int));
            assert(samples@.take(i + 1).drop_last() =~= samples@.take(i as int));
            lemma_mul_le(i as int, u32::MAX as int, MAX_WINDOW as int, u32::MAX as int);
            lemma_mul_le(
                i as int,
                u32::MAX * u32::MAX,
                MAX_WINDOW as int,
                u32::MAX * u32::MAX,
            );
            lemma_mul_le(
                samples@[i as int] as int,
                samples@[i as int] as int,
                u32::MAX as int,
                u32::MAX as int,
            );
        }
        let x = samples[i];
        sum = sum + x as u64;
        squares = squares + x as u128 * x as u128;
        i += 1;
    }
    assert(samples@.take(samples@.len() as int) =~= samples@);
    (sum, squares)
}

/// The standard deviation of the samples, rounded down; 0 for fewer than
/// two samples.
pub fn deviation(samples: &VecDeque<u32>) -> (spread: u64)
    requires
        samples@.len() <= MAX_WINDOW,
    ensures
        spread == spec_deviation(samples@),
{
    if samples.len() < 2 {
        return 0;
    }
    let n: u128 = samples.len() as u128;
    let (sum, squares) = sums(samples);
    proof {
        lemma_sum_bound(samples@);
        lemma_mul_le(
            n as int,
            squares as int,
            MAX_WINDOW as int,
            MAX_WINDOW * (u32::MAX * u32::MAX),
        );
        lemma_mul_le(sum as int, sum as int, MAX_WINDOW * u32::MAX, MAX_WINDOW * u32::MAX);
        lemma_mul_le(samples@.len() as int, u32::MAX as int, MAX_WINDOW as int, u32::MAX as int);
        lemma_mul_le(
            samples@.len() as int,
            u32::MAX * u32::MAX,
            MAX_WINDOW as int,
            u32::MAX * u32::MAX,
        );
        lemma_mul_le(n as int, n as int, MAX_WINDOW as int, MAX_WINDOW as int);
        lemma_mul_le(1, 1, n as int, n as int);
    }
    let weighted: u128 = n * squares;
    let squared: u128 = sum as u128 * sum as u128;
    if weighted <= squared {
        proof {
            assert(is_sqrt(0, 0));
            lemma_sqrt_unique(0, 0, spec_sqrt(0));
        }
        return 0;
    }
    let variance: u128 = (weighted - squared) / (n * n);
    isqrt(variance)
}

/// The mean of the samples, rounded down; 0 for no samples.
pub fn mean(samples: &VecDeque<u32>) -> (value: u64)
    requires
        samples@.len() <= MAX_WINDOW,
    ensures
        value == spec_mean(samples@),
{
    if samples.len() == 0 {
        return 0;
    }
    let (sum, _) = sums(samples);
    sum / samples.len() as u64
}

/// Records `sample` in a window of at most `capacity` samples.
pub fn push_window(window: &mut VecDeque<u32>, sample: u32, capacity: usize)
    requires
        old(window)@.len() <= capacity,
        capacity >= 1,
    ensures
        final(window)@ == spec_push_window(old(window)@, sample, capacity as nat),
        final(window)@.len() <= capacity,
{
    window.push_back(sample);
    if window.len() > capacity {
        let _ = window.pop_front();
    }
    assert(window@ =~= spec_push_window(old(window)@, sample, capacity as nat));
}

impl NetworkMonitor {
    /// A monitor that has recorded nothing.
    pub fn new() -> (monitor: Self)
        ensures
            monitor@ == MonitorView::empty(),
            monitor@.wf(),
    {
        NetworkMonitor {
            rtt_samples: VecDeque::new(),
            loss_count: 0,
            total_packets: 0,
            bandwidth_samples: VecDeque::new(),
        }
    }

    /// Records the arrival, at `now_us`, of the packet that was sent at
    /// `sent_us`.
    pub fn record_packet(&mut self, _seq: u32, sent_us: u64, now_us: u64)
        requires
            old(self)@.wf(),
        ensures
            final(self)@.wf(),
            final(self)@ == old(self)@.with_packet(sent_us, now_us),
    {
        let rtt = elapsed(sent_us, now_us);
        push_window(&mut self.rtt_samples, rtt, RTT_WINDOW);
        if self.total_packets < u32::MAX {
            self.total_packets = self.total_packets + 1;
        }
    }

    /// Records a round-trip time, in microseconds.
    pub fn record_rtt(&mut self, rtt_us: u32)
        requires
            old(self)@.wf(),
        ensures
            final(self)@.wf(),
            final(self)@ == old(self)@.with_rtt(rtt_us),
    {
        push_window(&mut self.rtt_samples, rtt_us, RTT_WINDOW);
    }

    /// Records a lost packet.
    pub fn record_loss(&mut self)
        requires
            old(self)@.wf(),
        ensures
            final(self)@.wf(),
            final(self)@ == old(self)@.with_loss(),
    {
        if self.total_packets < u32::MAX {
            self.loss_count = self.loss_count + 1;
            self.total_packets = self.total_packets + 1;
        }
    }

    /// Records a delivered packet.
    pub fn record_success(&mut self, _bytes: usize, _duration_us: u64)
        requires
            old(self)@.wf(),
        ensures
            final(self)@.wf(),
            final(self)@ == old(self)@.with_success(),
    {
        if self.total_packets < u32::MAX {
            self.total_packets = self.total_packets + 1;
        }
    }

    /// Records a bandwidth sample, in bits per second.
    pub fn record_bandwidth_sample(&mut self, bandwidth_bps: u32)
        requires
            old(self)@.wf(),
        ensures
            final(self)@.wf(),
            final(self)@ == old(self)@.with_bandwidth(bandwidth_bps),
    {
        push_window(&mut self.bandwidth_samples, bandwidth_bps, BANDWIDTH_WINDOW);
    }

    /// What the monitor has measured.
    pub fn get_stats(&self) -> (stats: NetworkStats)
        requires
            self@.wf(),
        ensures
            stats == self@.measured(),
    {
        NetworkStats {
            rtt_us: self.calculate_rtt(),
            jitter_us: self.calculate_jitter(),
            loss_ppm: self.calculate_loss_rate(),
            bandwidth_bps: self.estimate_bandwidth(),
            bytes_sent: 0,
            bytes_received: 0,
            packets_sent: 0,
            packets_received: 0,
            packets_lost: 0,
        }
    }

    /// The mean round-trip time, in microseconds; 0 without samples.
    pub fn calculate_rtt(&self) -> (rtt_us: u64)
        requires
            self@.wf(),
        ensures
            rtt_us == self@.rtt_us(),
    {
        mean(&self.rtt_samples)
    }

    /// The jitter, in microseconds: the standard deviation of the
    /// round-trip times, rounded down; 0 with fewer than two samples.
    pub fn calculate_jitter(&self) -> (jitter_us: u64)
        requires
            self@.wf(),
        ensures
            jitter_us == spec_deviation(self@.rtt_samples),
    {
        deviation(&self.rtt_samples)
    }

    /// The loss rate, in lost packets per million recorded.
    pub fn calculate_loss_rate(&self) -> (loss_ppm: u32)
        requires
            self@.wf(),
        ensures
            loss_ppm == self@.loss_ppm(),
            loss_ppm <= 1_000_000,
    {
        if self.total_packets == 0 {
            return 0;
        }
        let ppm: u64 = self.loss_count as u64 * 1_000_000 / self.total_packets as u64;
        assert(ppm <= 1_000_000) by (nonlinear_arith)
            requires
                ppm == (self.loss_count * 1_000_000) / (self.total_packets as int),
                self.loss_count <= self.total_packets,
                self.total_packets > 0,
        ;
        ppm as u32
    }

    /// The bandwidth estimate, in bits per second: the mean of the samples,
    /// or the default without samples.
    pub fn estimate_bandwidth(&self) -> (bandwidth_bps: u32)
        requires
            self@.wf(),
        ensures
            bandwidth_bps == self@.bandwidth_bps(),
    {
        if self.bandwidth_samples.len() == 0 {
            return DEFAULT_BANDWIDTH;
        }
        let (sum, _) = sums(&self.bandwidth_samples);
        proof {
            lemma_sum_bound(self.bandwidth_samples@);
            assert(sum as int / (self.bandwidth_samples@.len() as int) <= u32::MAX)
                by (nonlinear_arith)
                requires
                    0 <= sum <= self.bandwidth_samples@.len() * u32::MAX,
                    self.bandwidth_samples@.len() > 0,
            ;
        }
        (sum / self.bandwidth_samples.len() as u64) as u32
    }

    /// Round-trip times in the window.
    pub fn rtt_sample_count(&self) -> (count: usize)
        ensures
            count == self@.rtt_samples.len(),
    {
        self.rtt_samples.len()
    }

    /// Packets recorded as lost.
    pub fn loss_count(&self) -> (count: u32)
        ensures
            count == self@.loss_count,
    {
        self.loss_count
    }

    /// Packets recorded in all.
    pub fn total_packets(&self) -> (count: u32)
        ensures
            count == self@.total_packets,
    {
        self.total_packets
    }

    /// Forgets everything that was recorded.
    pub fn reset(&mut self)
        ensures
            final(self)@ == MonitorView::empty(),
            final(self)@.wf(),
    {
        self.rtt_samples.clear();
        self.bandwidth_samples.clear();
        self.loss_count = 0;
        self.total_packets = 0;
    }

    /// The round-trip times of the window in rising order, in microseconds.
    pub fn sorted_rtt(&self) -> (sorted: Vec<u64>)
        ensures
            sorted@ == spec_sorted(self@.rtt_samples),
    {
        sorted(&self.rtt_samples)
    }

    /// The round-trip time, in microseconds, that 95 of 100 samples do not
    /// exceed; 0 without samples.
    pub fn p95_rtt(&self) -> (rtt_us: u64)
        ensures
            rtt_us == spec_percentile(self@.rtt_samples, 950),
    {
        percentile_of(&self.rtt_samples, 950)
    }

    /// The round-trip time, in microseconds, that 99 of 100 samples do not
    /// exceed; 0 without samples.
    pub fn p99_rtt(&self) -> (rtt_us: u64)
        ensures
            rtt_us == spec_percentile(self@.rtt_samples, 990),
    {
        percentile_of(&self.rtt_samples, 990)
    }
}

/// A time difference in microseconds as a sample.
pub fn elapsed(from: u64, to: u64) -> (sample: u32)
    ensures
        sample == spec_elapsed(from, to),
{
    if to <= from {
        0
    } else if to - from > u32::MAX as u64 {
        u32::MAX
    } else {
        (to - from) as u32
    }
}

impl Default for NetworkMonitor {
    fn default() -> (monitor: Self)
        ensures
            monitor@ == MonitorView::empty(),
    {
        NetworkMonitor::new()
    }
}

} // verus!
