//! Transport: the wire protocol, the connection state machine and the
//! statistics that feed the quality controller.

pub mod framing;
pub mod protocol;
pub mod session;
pub mod sshtunnel;
pub mod wire;

use crate::quality::bandwidth_estimator::rate;
use crate::quality::bandwidth_estimator::spec_rate;
use crate::quality::bandwidth_estimator::spec_smoothed;
use crate::quality::monitor::deviation;
use crate::quality::monitor::mean;
use crate::quality::monitor::push_window;
use crate::quality::monitor::spec_mean;
use crate::quality::monitor::spec_push_window;
use crate::quality::monitor::spec_deviation;
use crate::quality::monitor::MAX_WINDOW;
use crate::transport::protocol::ConnectionConfig;
use crate::transport::protocol::NetworkStats;
use crate::transport::protocol::TransportError;
use crate::transport::protocol::TransportMode;
use crate::transport::session::spec_new;
use crate::transport::session::TransportSession;
use std::collections::VecDeque;
use vstd::prelude::*;

verus! {

/// Creates the session of a transport for a configuration.
pub struct TransportFactory;

impl TransportFactory {
    /// A session in the mode that the configuration names.
    pub fn create(config: &ConnectionConfig) -> (made: Result<TransportSession, TransportError>)
        ensures
            made is Ok,
            made->Ok_0@ == spec_new(*config),
            made->Ok_0@.wf(),
    {
        Ok(TransportSession::new(config))
    }

    /// A session over the datagram-capable secure transport.
    pub fn create_quic(config: ConnectionConfig) -> (made: Result<TransportSession, TransportError>)
        ensures
            made is Ok,
            made->Ok_0@ == spec_new(ConnectionConfig { mode: TransportMode::Quic, ..config }),
            made->Ok_0@.wf(),
    {
        let mut config = config;
        config.mode = TransportMode::Quic;
        Ok(TransportSession::new(&config))
    }

    /// A session over the browser-compatible secure transport.
    pub fn create_webtransport(config: ConnectionConfig) -> (made: Result<
        TransportSession,
        TransportError,
    >)
        ensures
            made is Ok,
            made->Ok_0@ == spec_new(ConnectionConfig { mode: TransportMode::WebTransport, ..config }),
            made->Ok_0@.wf(),
    {
        let mut config = config;
        config.mode = TransportMode::WebTransport;
        Ok(TransportSession::new(&config))
    }

    /// A session over the reliable tunnel.
    pub fn create_sshtunnel(config: ConnectionConfig) -> (made: Result<
        TransportSession,
        TransportError,
    >)
        ensures
            made is Ok,
            made->Ok_0@ == spec_new(ConnectionConfig { mode: TransportMode::SshTunnel, ..config }),
            made->Ok_0@.wf(),
    {
        let mut config = config;
        config.mode = TransportMode::SshTunnel;
        Ok(TransportSession::new(&config))
    }
}

/// The badness of a network: ten times its round trip and its jitter in
/// microseconds, and its loss in packets per million. This orders networks
/// as the sum of round trip and jitter in milliseconds and of the loss in
/// percent does.
pub open spec fn spec_score(stats: NetworkStats) -> int {
    10 * stats.rtt_us + 10 * stats.jitter_us + stats.loss_ppm
}

/// The badness of a network.
pub fn score(stats: &NetworkStats) -> (badness: u128)
    ensures
        badness == spec_score(*stats),
{
    10 * stats.rtt_us as u128 + 10 * stats.jitter_us as u128 + stats.loss_ppm as u128
}

/// The position of the first of the sessions up to `upto` with the least
/// badness; 0 for no sessions.
pub open spec fn spec_best(sessions: Seq<TransportSession>, upto: int) -> int
    decreases upto,
{
    if upto <= 1 {
        0
    } else {
        let before = spec_best(sessions, upto - 1);
        if spec_score(sessions[upto - 1]@.stats) < spec_score(sessions[before]@.stats) {
            upto - 1
        } else {
            before
        }
    }
}

/// The best position is a position, and no session before the end has less
/// badness than the one there.
pub proof fn lemma_best(sessions: Seq<TransportSession>, upto: int)
    requires
        1 <= upto <= sessions.len(),
    ensures
        0 <= spec_best(sessions, upto) < upto,
        forall|i: int|
            0 <= i < upto ==> spec_score(sessions[spec_best(sessions, upto)]@.stats) <= spec_score(
                #[trigger] sessions[i]@.stats,
            ),
    decreases upto,
{
    if upto > 1 {
        lemma_best(sessions, upto - 1);
    }
}

/// Several transports of which one is the primary.
#[derive(Debug)]
pub struct TransportManager {
    transports: Vec<TransportSession>,
    primary_index: usize,
    config: ConnectionConfig,
}

impl TransportManager {
    /// The sessions that are managed.
    pub closed spec fn sessions(&self) -> Seq<TransportSession> {
        self.transports@
    }

    /// The position of the primary session.
    pub closed spec fn primary_index(&self) -> usize {
        self.primary_index
    }

    /// The configuration that the manager was made with.
    pub closed spec fn spec_config(&self) -> ConnectionConfig {
        self.config
    }

    /// A manager without transports, which keeps `config` for the
    /// transports that it is given later.
    pub fn new(config: ConnectionConfig) -> (manager: Self)
        ensures
            manager.sessions().len() == 0,
            manager.primary_index() == 0,
            manager.spec_config() == config,
    {
        TransportManager { transports: Vec::new(), primary_index: 0, config }
    }

    /// The configuration that the manager was made with.
    pub fn config(&self) -> (config: &ConnectionConfig)
        ensures
            *config == self.spec_config(),
    {
        &self.config
    }

    /// Adds a transport after those that are there.
    pub fn add_transport(&mut self, transport: TransportSession)
        ensures
            final(self).sessions() == old(self).sessions().push(transport),
            final(self).primary_index() == old(self).primary_index(),
            final(self).spec_config() == old(self).spec_config(),
    {
        self.transports.push(transport);
    }

    /// The primary transport, if there is one.
    pub fn primary(&self) -> (transport: Option<&TransportSession>)
        ensures
            if self.primary_index() < self.sessions().len() {
                transport == Some(&self.sessions()[self.primary_index() as int])
            } else {
                transport is None
            },
    {
        if self.primary_index < self.transports.len() {
            Some(&self.transports[self.primary_index])
        } else {
            None
        }
    }

    /// Makes the next transport the primary one, the first after the last.
    /// With fewer than two transports nothing changes and `false` is
    /// returned.
    pub fn failover(&mut self) -> (switched: bool)
        ensures
            final(self).sessions() == old(self).sessions(),
            final(self).spec_config() == old(self).spec_config(),
            switched <==> old(self).sessions().len() > 1,
            final(self).primary_index() == if old(self).sessions().len() > 1 {
                ((old(self).primary_index() as int + 1) % (old(self).sessions().len() as int))
                    as usize
            } else {
                old(self).primary_index()
            },
    {
        let n = self.transports.len();
        if n > 1 {
            self.primary_index = ((self.primary_index as u128 + 1) % (n as u128)) as usize;
            true
        } else {
            false
        }
    }

    /// The position of the transport with the best network: the first with
    /// the least badness. `None` without transports.
    pub fn best_transport(&self) -> (best: Option<usize>)
        ensures
            if self.sessions().len() == 0 {
                best is None
            } else {
                best == Some(spec_best(self.sessions(), self.sessions().len() as int) as usize)
            },
    {
        if self.transports.len() == 0 {
            return None;
        }
        let mut best_idx: usize = 0;
        let mut i: usize = 1;
        while i < self.transports.len()
            invariant
                1 <= i <= self.transports@.len(),
                best_idx == spec_best(self.transports@, i as int),
                best_idx < i,
            decreases self.transports@.len() - i,
        {
            let candidate = self.transports[i].stats();
            let held = self.transports[best_idx].stats();
            if score(&candidate) < score(&held) {
                best_idx = i;
            }
            i += 1;
        }
        Some(best_idx)
    }

    /// The mode and the statistics of every transport, in order.
    pub fn all_stats(&self) -> (all: Vec<(TransportMode, NetworkStats)>)
        ensures
            all@.len() == self.sessions().len(),
            forall|i: int|
                0 <= i < all@.len() ==> #[trigger] all@[i] == (
                    self.sessions()[i]@.mode,
                    self.sessions()[i]@.stats,
                ),
    {
        let mut all: Vec<(TransportMode, NetworkStats)> = Vec::new();
        let mut i: usize = 0;
        while i < self.transports.len()
            invariant
                i <= self.transports@.len(),
                all@.len() == i,
                forall|k: int|
                    0 <= k < i ==> #[trigger] all@[k] == (
                        self.transports@[k]@.mode,
                        self.transports@[k]@.stats,
                    ),
            decreases self.transports@.len() - i,
        {
            all.push((self.transports[i].mode(), self.transports[i].stats()));
            i += 1;
        }
        all
    }

    /// Forgets all transports. The caller has disconnected them.
    pub fn disconnect_all(&mut self)
        ensures
            final(self).sessions().len() == 0,
            final(self).primary_index() == old(self).primary_index(),
            final(self).spec_config() == old(self).spec_config(),
    {
        self.transports.clear();
    }
}

/// A window of round-trip times, in microseconds.
#[derive(Debug)]
pub struct LatencyMonitor {
    samples: VecDeque<u32>,
    max_samples: usize,
}

/// A latency monitor as a mathematical value.
pub struct LatencyView {
    /// The most recent samples, oldest first.
    pub samples: Seq<u32>,
    /// Samples that the window keeps.
    pub max_samples: usize,
}

impl LatencyView {
    /// The window keeps at least one sample and at most its capacity.
    pub open spec fn wf(self) -> bool {
        1 <= self.max_samples <= MAX_WINDOW && self.samples.len() <= self.max_samples
    }
}

impl View for LatencyMonitor {
    type V = LatencyView;

    closed spec fn view(&self) -> LatencyView {
        LatencyView { samples: self.samples@, max_samples: self.max_samples }
    }
}

/// The share of `expected` packets that did not arrive, in packets per
/// million; 0 where none was expected or more arrived than were expected.
pub open spec fn spec_loss_ppm(expected: u32, received: u32) -> u32 {
    if expected == 0 || received >= expected {
        0
    } else {
        (((expected - received) * 1_000_000) / (expected as int)) as u32
    }
}

impl LatencyMonitor {
    /// A monitor that keeps the last `max_samples` samples: one at least,
    /// and 65535 at most.
    pub fn new(max_samples: usize) -> (monitor: Self)
        ensures
            monitor@.wf(),
            monitor@.samples.len() == 0,
            monitor@.max_samples == if max_samples < 1 {
                1
            } else if max_samples > MAX_WINDOW {
                MAX_WINDOW
            } else {
                max_samples
            },
    {
        LatencyMonitor {
            samples: VecDeque::new(),
            max_samples: if max_samples < 1 {
                1
            } else if max_samples > MAX_WINDOW {
                MAX_WINDOW
            } else {
                max_samples
            },
        }
    }

    /// Records a round-trip time. The oldest sample leaves a full window.
    pub fn add_sample(&mut self, rtt_us: u32)
        requires
            old(self)@.wf(),
        ensures
            final(self)@.wf(),
            final(self)@ == (LatencyView {
                samples: spec_push_window(
                    old(self)@.samples,
                    rtt_us,
                    old(self)@.max_samples as nat,
                ),
                ..old(self)@
            }),
    {
        push_window(&mut self.samples, rtt_us, self.max_samples);
    }

    /// The mean round-trip time, rounded down; 0 without samples.
    pub fn average_rtt(&self) -> (rtt_us: u64)
        requires
            self@.wf(),
        ensures
            rtt_us == spec_mean(self@.samples),
    {
        mean(&self.samples)
    }

    /// The jitter: the standard deviation of the samples, rounded down; 0
    /// with fewer than two samples.
    pub fn jitter(&self) -> (jitter_us: u64)
        requires
            self@.wf(),
        ensures
            jitter_us == spec_deviation(self@.samples),
    {
        deviation(&self.samples)
    }

    /// The loss rate that the gaps in the sequence numbers show, in
    /// packets per million.
    pub fn loss_rate(&self, expected: u32, received: u32) -> (loss_ppm: u32)
        ensures
            loss_ppm == spec_loss_ppm(expected, received),
            loss_ppm <= 1_000_000,
    {
        if expected == 0 || received >= expected {
            return 0;
        }
        let lost: u64 = (expected - received) as u64;
        let ppm: u64 = lost * 1_000_000 / expected as u64;
        assert(ppm <= 1_000_000) by (nonlinear_arith)
            requires
                ppm == (lost * 1_000_000) / (expected as int),
                0 <= lost <= expected,
                expected > 0,
        ;
        ppm as u32
    }
}

/// An estimate of the bandwidth from the growth of a byte counter.
#[derive(Debug, Clone, Copy, PartialEq, Eq, Structural)]
pub struct BandwidthEstimator {
    /// Time of the last sample, in microseconds.
    pub last_time: u64,
    /// The byte counter at the last sample.
    pub last_bytes: u64,
    /// The estimate, in bits per second.
    pub estimate_bps: u32,
    /// Weight of a new sample, in thousandths.
    pub alpha: u32,
}

impl BandwidthEstimator {
    /// The estimator at its start at time `now_us`: 10 Mbit/s, and a new
    /// sample weighs a fifth.
    pub open spec fn start(now_us: u64) -> BandwidthEstimator {
        BandwidthEstimator { last_time: now_us, last_bytes: 0, estimate_bps: 10_000_000, alpha: 200 }
    }

    /// The estimator after the byte counter stood at `total_bytes` at time
    /// `now_us`: where time has passed and the counter has grown, the rate
    /// of the growth joins the estimate as a sample.
    pub open spec fn updated(self, total_bytes: u64, now_us: u64) -> BandwidthEstimator {
        if now_us > self.last_time && total_bytes > self.last_bytes && self.alpha <= 1000 {
            BandwidthEstimator {
                last_time: now_us,
                last_bytes: total_bytes,
                estimate_bps: spec_smoothed(
                    self.estimate_bps,
                    spec_rate(
                        (total_bytes - self.last_bytes) as u64,
                        (now_us - self.last_time) as u64,
                    ),
                    self.alpha,
                    0,
                    u32::MAX,
                ),
                ..self
            }
        } else {
            self
        }
    }

    /// An estimator at its start at time `now_us`.
    pub fn new(now_us: u64) -> (estimator: Self)
        ensures
            estimator == BandwidthEstimator::start(now_us),
    {
        BandwidthEstimator { last_time: now_us, last_bytes: 0, estimate_bps: 10_000_000, alpha: 200 }
    }

    /// Takes the byte counter at time `now_us`.
    pub fn update(&mut self, total_bytes: u64, now_us: u64)
        ensures
            *final(self) == old(self).updated(total_bytes, now_us),
    {
        if now_us > self.last_time && total_bytes > self.last_bytes && self.alpha <= 1000 {
            let instant = rate(total_bytes - self.last_bytes, now_us - self.last_time);
            proof {
                crate::arith::lemma_mul_le(self.alpha as int, instant as int, 1000, u32::MAX as int);
                crate::arith::lemma_mul_le(
                    1000 - self.alpha as int,
                    self.estimate_bps as int,
                    1000,
                    u32::MAX as int,
                );
            }
            let smoothed: u64 = (self.alpha as u64 * instant as u64 + (1000 - self.alpha) as u64
                * self.estimate_bps as u64) / 1000;
            self.estimate_bps = crate::quality::adaptive_controller::clamp(smoothed, 0, u32::MAX);
            self.last_time = now_us;
            self.last_bytes = total_bytes;
        }
    }

    /// The estimate, in bits per second.
    pub fn estimate(&self) -> (bps: u32)
        ensures
            bps == self.estimate_bps,
    {
        self.estimate_bps
    }
}

} // verus!
