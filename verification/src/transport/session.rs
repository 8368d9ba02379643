//! The state of one transport instance: the connection state machine, the
//! numbering of what is sent, and the counters of traffic. The network
//! itself is driven by the caller, who asks the session what to put on the
//! wire and tells it what came back.

use crate::encoder::EncodedFrame;
use crate::quality::bandwidth_estimator::BandwidthEstimator;
use crate::quality::bandwidth_estimator::EstimatorView;
use crate::quality::monitor::deviation;
use crate::quality::monitor::elapsed;
use crate::quality::monitor::mean;
use crate::quality::monitor::percentile_of;
use crate::quality::monitor::spec_percentile;
use crate::quality::monitor::push_window;
use crate::quality::monitor::spec_elapsed;
use crate::quality::monitor::spec_mean;
use crate::quality::monitor::spec_push_window;
use crate::quality::monitor::spec_deviation;
use crate::transport::framing::frame;
use crate::transport::framing::spec_frame;
use crate::transport::framing::spec_tunnel_frame;
use crate::transport::framing::tunnel_frame;
use crate::transport::framing::Channel;
use crate::transport::protocol::spec_decode;
use crate::transport::protocol::spec_encode;
use crate::transport::protocol::ConnectionConfig;
use crate::transport::protocol::ControlPacket;
use crate::transport::protocol::NetworkStats;
use crate::transport::protocol::TransportError;
use crate::transport::protocol::TransportMode;
use crate::transport::protocol::VideoCodec;
use crate::transport::protocol::VideoPacket;
use crate::transport::protocol::VideoPacketView;
use crate::transport::wire::shared_to_vec;
use std::collections::VecDeque;
use vstd::prelude::*;

verus! {

/// Where a transport instance stands.
#[derive(Debug, Clone, Copy, PartialEq, Eq, Structural)]
pub enum ConnectionState {
    /// Nothing has been asked of it.
    Idle,
    /// The handshake is under way.
    Connecting,
    /// The session stands.
    Connected,
    /// A disconnect was sent or received; queued sends drain.
    Draining,
    /// All channels are closed.
    Closed,
}

/// Milliseconds between two pings.
pub const PING_INTERVAL_MS: u64 = 1000;

/// Milliseconds that queued sends are given after a disconnect.
pub const DRAIN_MS: u64 = 100;

/// Round-trip times that the window keeps.
pub const RTT_WINDOW: usize = 100;

/// How the network took a video packet.
#[derive(Debug, Clone, Copy, PartialEq, Eq, Structural)]
pub enum SendOutcome {
    /// The packet left.
    Delivered,
    /// The peer takes no datagrams.
    DatagramUnsupported,
    /// The send failed.
    Failed,
}

/// What to do after a video packet was handed to the network.
#[derive(Debug, Clone, Copy, PartialEq, Eq, Structural)]
pub enum VideoFollowUp {
    /// Nothing.
    Done,
    /// Send the same bytes on the reliable video stream; datagrams are
    /// given up for this session.
    RetryOnStream,
}

/// What becomes of a frame that is given to the video channel.
pub enum VideoStep {
    /// The session does not stand yet: sending is an error.
    Refused,
    /// The frame is dropped and counted.
    Dropped,
    /// The frame leaves as these bytes.
    Leaves(Seq<u8>),
}

/// What time asks of the session.
#[derive(Debug, Clone, Copy, PartialEq, Eq, Structural)]
pub enum TickAction {
    /// Nothing.
    Wait,
    /// Send a ping that carries this timestamp.
    SendPing { timestamp: u64 },
    /// The handshake took too long; the session is closed.
    TimedOut,
    /// The drain time is over; close the channels.
    Close,
}

/// What a control packet asks of the session.
#[derive(Debug, Clone, Copy, PartialEq, Eq, Structural)]
pub enum ControlAction {
    /// Nothing.
    Ignore,
    /// Answer with a pong that carries this timestamp.
    SendPong { timestamp: u64 },
    /// A round trip was measured, in microseconds.
    RttMeasured { rtt_us: u32 },
    /// The session stands.
    Established,
    /// The server refused the session; it is closed.
    Refused,
    /// The peer disconnects; queued sends drain.
    Drain,
}

/// The codec of the encoder as the wire names it.
pub open spec fn spec_wire_codec(codec: crate::encoder::VideoCodec) -> VideoCodec {
    match codec {
        crate::encoder::VideoCodec::H264 => VideoCodec::H264,
        crate::encoder::VideoCodec::HEVC => VideoCodec::H265,
        crate::encoder::VideoCodec::AV1 => VideoCodec::AV1,
    }
}

/// The codec of the encoder as the wire names it.
pub fn wire_codec(codec: crate::encoder::VideoCodec) -> (wire: VideoCodec)
    ensures
        wire == spec_wire_codec(codec),
{
    match codec {
        crate::encoder::VideoCodec::H264 => VideoCodec::H264,
        crate::encoder::VideoCodec::HEVC => VideoCodec::H265,
        crate::encoder::VideoCodec::AV1 => VideoCodec::AV1,
    }
}

/// The packet that carries `frame` under sequence number `seq`.
pub open spec fn spec_packet(seq: u32, frame: crate::encoder::EncodedFrameView) -> VideoPacketView {
    VideoPacketView {
        seq,
        timestamp: frame.pts,
        data: frame.data,
        key_frame: frame.key_frame,
        width: frame.width,
        height: frame.height,
        codec: spec_wire_codec(frame.codec),
    }
}

/// A count raised by `by`, staying at the largest number.
pub open spec fn spec_count_up(count: u64, by: int) -> u64 {
    if count + by > u64::MAX {
        u64::MAX
    } else if count + by < 0 {
        0
    } else {
        (count + by) as u64
    }
}

/// A count raised by `by`, staying at the largest number.
pub fn count_up(count: u64, by: usize) -> (sum: u64)
    ensures
        sum == spec_count_up(count, by as int),
{
    if by as u128 > (u64::MAX - count) as u128 {
        u64::MAX
    } else {
        count + by as u64
    }
}

/// The session as a mathematical value. Times are in milliseconds but
/// round-trip times, which are in microseconds.
pub struct SessionView {
    /// The protocol that carries the session.
    pub mode: TransportMode,
    /// Milliseconds after which a handshake is given up.
    pub timeout_ms: u64,
    /// Where the session stands.
    pub state: ConnectionState,
    /// When the handshake began.
    pub connect_started_ms: u64,
    /// When the drain began.
    pub drain_started_ms: u64,
    /// When the last ping was sent.
    pub last_ping_ms: u64,
    /// Sequence number of the next video packet.
    pub video_seq: u32,
    /// Sequence number of the next input event.
    pub input_seq: u64,
    /// Sequence number of the next control packet.
    pub control_seq: u64,
    /// Whether video still travels as datagrams.
    pub datagrams: bool,
    /// The counters of traffic.
    pub stats: NetworkStats,
    /// Video sends that failed and were swallowed.
    pub video_send_errors: u64,
    /// Packets that arrived malformed and were dropped.
    pub invalid_packets: u64,
    /// The most recent round-trip times, oldest first, in microseconds.
    pub rtt_samples: Seq<u32>,
    /// What was reported of the deliveries of the last second, oldest
    /// first.
    pub deliveries: Seq<Delivery>,
    /// The estimator of the bandwidth.
    pub estimator: EstimatorView,
    /// The error of a lost session that the next operation is to report.
    pub pending_error: Option<TransportError>,
}

/// A report of how many packets were sent and how many of them were lost.
#[derive(Debug, Clone, Copy, PartialEq, Eq, Structural)]
pub struct Delivery {
    /// Time of the report, in microseconds.
    pub time_us: u64,
    /// Packets that were sent.
    pub sent: u32,
    /// Packets among them that were lost.
    pub lost: u32,
}

/// Microseconds of the window over which the loss rate is taken.
pub const LOSS_WINDOW_US: u64 = 1_000_000;

/// The reports without those at the front that are older than `cutoff_us`.
pub open spec fn spec_recent(deliveries: Seq<Delivery>, cutoff_us: u64) -> Seq<Delivery>
    decreases deliveries.len(),
{
    if deliveries.len() > 0 && deliveries[0].time_us < cutoff_us {
        spec_recent(deliveries.skip(1), cutoff_us)
    } else {
        deliveries
    }
}

/// The packets that the first `upto` reports say were sent.
pub open spec fn spec_sent(deliveries: Seq<Delivery>, upto: int) -> int
    decreases upto,
{
    if upto <= 0 {
        0
    } else {
        spec_sent(deliveries, upto - 1) + deliveries[upto - 1].sent
    }
}

/// The packets that the first `upto` reports say were lost, no more of a
/// report than it says were sent.
pub open spec fn spec_lost(deliveries: Seq<Delivery>, upto: int) -> int
    decreases upto,
{
    if upto <= 0 {
        0
    } else {
        spec_lost(deliveries, upto - 1) + if deliveries[upto - 1].lost
            > deliveries[upto - 1].sent {
            deliveries[upto - 1].sent
        } else {
            deliveries[upto - 1].lost
        }
    }
}

/// Sent and lost packets are counted from zero up, and no more are lost
/// than sent.
pub proof fn lemma_lost_within_sent(deliveries: Seq<Delivery>, upto: int)
    requires
        0 <= upto <= deliveries.len(),
    ensures
        0 <= spec_lost(deliveries, upto) <= spec_sent(deliveries, upto) <= upto * u32::MAX,
    decreases upto,
{
    if upto > 0 {
        lemma_lost_within_sent(deliveries, upto - 1);
        assert(upto * u32::MAX == (upto - 1) * u32::MAX + u32::MAX) by (nonlinear_arith);
    }
}

/// The loss rate of the reports, in packets per million: the lost packets
/// by the sent ones; 0 where none was sent.
pub open spec fn spec_loss_rate(deliveries: Seq<Delivery>) -> u32 {
    let sent = spec_sent(deliveries, deliveries.len() as int);
    let lost = spec_lost(deliveries, deliveries.len() as int);
    if sent <= 0 {
        0
    } else {
        ((lost * 1_000_000) / sent) as u32
    }
}

impl SessionView {
    /// The windows hold no more than their capacity, and the estimator is
    /// well formed.
    pub open spec fn wf(self) -> bool {
        self.rtt_samples.len() <= RTT_WINDOW && self.estimator.wf()
    }

    /// The session after a report of deliveries at `now_us`: the report
    /// joins, reports older than a second leave, and the statistics show
    /// the loss rate of what remains and count the lost packets.
    pub open spec fn with_delivery(self, sent: u32, lost: u32, now_us: u64) -> SessionView {
        let recent = spec_recent(
            self.deliveries.push(Delivery { time_us: now_us, sent, lost }),
            if now_us >= LOSS_WINDOW_US {
                (now_us - LOSS_WINDOW_US) as u64
            } else {
                0
            },
        );
        SessionView {
            deliveries: recent,
            stats: NetworkStats {
                loss_ppm: spec_loss_rate(recent),
                packets_lost: spec_count_up(self.stats.packets_lost, if lost > sent {
                    sent as int
                } else {
                    lost as int
                }),
                ..self.stats
            },
            ..self
        }
    }

    /// The session after `bytes` bytes were acknowledged at `now_us`: the
    /// estimator takes them as an arrival, and the statistics show its
    /// estimate.
    pub open spec fn with_acknowledged(self, bytes: u64, now_us: u64) -> SessionView {
        let estimator = self.estimator.with_arrival(bytes, now_us);
        SessionView {
            estimator,
            stats: NetworkStats { bandwidth_bps: estimator.estimated_bandwidth, ..self.stats },
            ..self
        }
    }

    /// Whether the handshake has taken too long at `now_ms`.
    pub open spec fn timed_out(self, now_ms: u64) -> bool {
        self.state == ConnectionState::Connecting && now_ms >= self.connect_started_ms && now_ms
            - self.connect_started_ms >= self.timeout_ms
    }

    /// Whether the drain time is over at `now_ms`.
    pub open spec fn drained(self, now_ms: u64) -> bool {
        self.state == ConnectionState::Draining && now_ms >= self.drain_started_ms && now_ms
            - self.drain_started_ms >= DRAIN_MS
    }

    /// Whether a ping is due at `now_ms`.
    pub open spec fn ping_due(self, now_ms: u64) -> bool {
        self.state == ConnectionState::Connected && now_ms >= self.last_ping_ms && now_ms
            - self.last_ping_ms >= PING_INTERVAL_MS
    }

    /// The session after time moved on to `now_ms`, and what is to be done.
    pub open spec fn ticked(self, now_ms: u64) -> (SessionView, TickAction) {
        if self.timed_out(now_ms) {
            (SessionView { state: ConnectionState::Closed, ..self }, TickAction::TimedOut)
        } else if self.drained(now_ms) {
            (SessionView { state: ConnectionState::Closed, ..self }, TickAction::Close)
        } else if self.ping_due(now_ms) {
            (
                SessionView { last_ping_ms: now_ms, ..self },
                TickAction::SendPing { timestamp: spec_micros(now_ms) },
            )
        } else {
            (self, TickAction::Wait)
        }
    }

    /// The bytes that carry `frame` as the next video packet: the packet
    /// itself, and in the tunnel the packet in a frame of the video
    /// channel.
    pub open spec fn video_bytes(self, frame: crate::encoder::EncodedFrameView) -> Seq<u8> {
        let packet = spec_encode(spec_packet(self.video_seq, frame));
        match self.mode {
            TransportMode::SshTunnel => spec_tunnel_frame(Channel::Video, 0, packet),
            _ => packet,
        }
    }

    /// What becomes of a frame that is given to the video channel, and of
    /// the session: before the session stands the frame is refused;
    /// after a disconnect or a lost session, and where it does not fit a
    /// packet, it is dropped and counted; on a connected session it
    /// leaves as the next packet.
    pub open spec fn video_step(self, frame: crate::encoder::EncodedFrameView) -> (
        SessionView,
        VideoStep,
    ) {
        match self.state {
            ConnectionState::Idle | ConnectionState::Connecting => (self, VideoStep::Refused),
            ConnectionState::Connected => if spec_sendable(frame.data.len()) {
                (
                    SessionView {
                        video_seq: if self.video_seq == u32::MAX {
                            0
                        } else {
                            (self.video_seq + 1) as u32
                        },
                        ..self
                    },
                    VideoStep::Leaves(self.video_bytes(frame)),
                )
            } else {
                (
                    SessionView {
                        video_send_errors: spec_count_up(self.video_send_errors, 1),
                        ..self
                    },
                    VideoStep::Dropped,
                )
            },
            ConnectionState::Draining | ConnectionState::Closed => (
                SessionView {
                    video_send_errors: spec_count_up(self.video_send_errors, 1),
                    ..self
                },
                VideoStep::Dropped,
            ),
        }
    }

    /// The bytes that carry an input event with the given serialisation.
    pub open spec fn input_bytes(self, payload: Seq<u8>) -> Seq<u8> {
        match self.mode {
            TransportMode::SshTunnel => spec_tunnel_frame(Channel::Input, self.input_seq, payload),
            _ => spec_frame(self.input_seq, payload),
        }
    }

    /// The bytes that carry a control packet with the given serialisation.
    pub open spec fn control_bytes(self, payload: Seq<u8>) -> Seq<u8> {
        match self.mode {
            TransportMode::SshTunnel => spec_tunnel_frame(Channel::Control, 0, payload),
            _ => spec_frame(self.control_seq, payload),
        }
    }

    /// The session after a round trip was measured: the sample joins the
    /// window, and the statistics show the mean of the window and, as
    /// jitter, its standard deviation.
    pub open spec fn with_rtt(self, rtt_us: u32) -> SessionView {
        let samples = spec_push_window(self.rtt_samples, rtt_us, RTT_WINDOW as nat);
        SessionView {
            rtt_samples: samples,
            stats: NetworkStats {
                rtt_us: spec_mean(samples) as u64,
                jitter_us: spec_deviation(samples) as u64,
                ..self.stats
            },
            ..self
        }
    }

    /// The session after a disconnect at `now_ms`: a connected session
    /// begins its drain, a session that never stood is closed at once, and
    /// a session that drains or is closed stays as it is.
    pub open spec fn disconnected(self, now_ms: u64) -> SessionView {
        match self.state {
            ConnectionState::Connected => SessionView {
                state: ConnectionState::Draining,
                drain_started_ms: now_ms,
                ..self
            },
            ConnectionState::Idle | ConnectionState::Connecting => SessionView {
                state: ConnectionState::Closed,
                ..self
            },
            _ => self,
        }
    }
}

/// Milliseconds as microseconds, the largest number where they do not fit.
pub open spec fn spec_micros(ms: u64) -> u64 {
    if ms * 1000 > u64::MAX {
        u64::MAX
    } else {
        (ms * 1000) as u64
    }
}

/// Milliseconds as microseconds.
pub fn micros(ms: u64) -> (us: u64)
    ensures
        us == spec_micros(ms),
{
    if ms > u64::MAX / 1000 {
        u64::MAX
    } else {
        ms * 1000
    }
}

/// Seconds as milliseconds, the largest number where they do not fit.
pub open spec fn spec_millis(secs: u64) -> u64 {
    if secs * 1000 > u64::MAX {
        u64::MAX
    } else {
        (secs * 1000) as u64
    }
}

/// The session that a configuration asks for, before anything is asked of
/// it.
pub open spec fn spec_new(config: ConnectionConfig) -> SessionView {
    SessionView {
        mode: config.mode,
        timeout_ms: spec_millis(config.timeout_secs),
        state: ConnectionState::Idle,
        connect_started_ms: 0,
        drain_started_ms: 0,
        last_ping_ms: 0,
        video_seq: 0,
        input_seq: 0,
        control_seq: 0,
        datagrams: config.mode != TransportMode::SshTunnel,
        stats: NetworkStats::spec_default(),
        video_send_errors: 0,
        invalid_packets: 0,
        rtt_samples: Seq::<u32>::empty(),
        deliveries: Seq::<Delivery>::empty(),
        estimator: EstimatorView::start(0),
        pending_error: None,
    }
}

/// The state of one transport instance.
#[derive(Debug)]
pub struct TransportSession {
    mode: TransportMode,
    timeout_ms: u64,
    state: ConnectionState,
    connect_started_ms: u64,
    drain_started_ms: u64,
    last_ping_ms: u64,
    video_seq: u32,
    input_seq: u64,
    control_seq: u64,
    datagrams: bool,
    stats: NetworkStats,
    video_send_errors: u64,
    invalid_packets: u64,
    rtt_samples: VecDeque<u32>,
    deliveries: VecDeque<Delivery>,
    estimator: BandwidthEstimator,
    pending_error: Option<TransportError>,
}

impl View for TransportSession {
    type V = SessionView;

    closed spec fn view(&self) -> SessionView {
        SessionView {
            mode: self.mode,
            timeout_ms: self.timeout_ms,
            state: self.state,
            connect_started_ms: self.connect_started_ms,
            drain_started_ms: self.drain_started_ms,
            last_ping_ms: self.last_ping_ms,
            video_seq: self.video_seq,
            input_seq: self.input_seq,
            control_seq: self.control_seq,
            datagrams: self.datagrams,
            stats: self.stats,
            video_send_errors: self.video_send_errors,
            invalid_packets: self.invalid_packets,
            rtt_samples: self.rtt_samples@,
            deliveries: self.deliveries@,
            estimator: self.estimator@,
            pending_error: self.pending_error,
        }
    }
}

impl TransportSession {
    /// A session for `config` that has not been asked for anything.
    pub fn new(config: &ConnectionConfig) -> (session: Self)
        ensures
            session@ == spec_new(*config),
            session@.wf(),
    {
        let timeout_ms = if config.timeout_secs > u64::MAX / 1000 {
            u64::MAX
        } else {
            config.timeout_secs * 1000
        };
        TransportSession {
            mode: config.mode,
            timeout_ms,
            state: ConnectionState::Idle,
            connect_started_ms: 0,
            drain_started_ms: 0,
            last_ping_ms: 0,
            video_seq: 0,
            input_seq: 0,
            control_seq: 0,
            datagrams: match config.mode {
                TransportMode::SshTunnel => false,
                _ => true,
            },
            stats: NetworkStats::default(),
            video_send_errors: 0,
            invalid_packets: 0,
            rtt_samples: VecDeque::new(),
            deliveries: VecDeque::new(),
            estimator: BandwidthEstimator::new(0),
            pending_error: None,
        }
    }

    /// Begins the handshake at `now_ms`. Returns the request to send on
    /// the control channel once the three channels are open. Only an idle
    /// session can connect.
    pub fn connect(&mut self, now_ms: u64) -> (request: Result<ControlPacket, TransportError>)
        ensures
            request is Ok <==> old(self)@.state == ConnectionState::Idle,
            request is Ok ==> final(self)@ == (SessionView {
                state: ConnectionState::Connecting,
                connect_started_ms: now_ms,
                ..old(self)@
            }) && (request->Ok_0 matches ControlPacket::Connect { client_version, capabilities }
                && client_version@ == spec_client_version() && capabilities@.len() == 2
                && capabilities@[0]@ == "h264"@ && capabilities@[1]@ == "h265"@),
            request is Err ==> final(self)@ == old(self)@ && request->Err_0 is Connection,
    {
        match self.state {
            ConnectionState::Idle => {},
            _ => {
                return Err(TransportError::Connection("session is already in use".to_string()));
            },
        }
        self.state = ConnectionState::Connecting;
        self.connect_started_ms = now_ms;
        let mut capabilities: Vec<String> = Vec::new();
        capabilities.push("h264".to_string());
        capabilities.push("h265".to_string());
        Ok(ControlPacket::Connect { client_version: "0.1.0".to_string(), capabilities })
    }

    /// Takes the server's answer to the connect request, at `now_ms`. The
    /// session stands if and only if the answer says success; a refusal
    /// closes it. An answer outside a handshake is ignored.
    pub fn on_connect_response(&mut self, success: bool, now_ms: u64) -> (action: ControlAction)
        ensures
            final(self)@ == if old(self)@.state != ConnectionState::Connecting {
                old(self)@
            } else if success {
                SessionView {
                    state: ConnectionState::Connected,
                    last_ping_ms: now_ms,
                    ..old(self)@
                }
            } else {
                SessionView { state: ConnectionState::Closed, ..old(self)@ }
            },
            action == if old(self)@.state != ConnectionState::Connecting {
                ControlAction::Ignore
            } else if success {
                ControlAction::Established
            } else {
                ControlAction::Refused
            },
    {
        match self.state {
            ConnectionState::Connecting => {
                if success {
                    self.state = ConnectionState::Connected;
                    self.last_ping_ms = now_ms;
                    ControlAction::Established
                } else {
                    self.state = ConnectionState::Closed;
                    ControlAction::Refused
                }
            },
            _ => ControlAction::Ignore,
        }
    }

    /// Moves time on to `now_ms`: a handshake older than the timeout closes
    /// the session as timed out, a drain older than the drain time closes
    /// it, and a connected session is asked for a ping every second.
    pub fn tick(&mut self, now_ms: u64) -> (action: TickAction)
        ensures
            (final(self)@, action) == old(self)@.ticked(now_ms),
    {
        match self.state {
            ConnectionState::Connecting => {
                if now_ms >= self.connect_started_ms && now_ms - self.connect_started_ms
                    >= self.timeout_ms {
                    self.state = ConnectionState::Closed;
                    return TickAction::TimedOut;
                }
            },
            ConnectionState::Draining => {
                if now_ms >= self.drain_started_ms && now_ms - self.drain_started_ms >= DRAIN_MS {
                    self.state = ConnectionState::Closed;
                    return TickAction::Close;
                }
            },
            ConnectionState::Connected => {
                if now_ms >= self.last_ping_ms && now_ms - self.last_ping_ms >= PING_INTERVAL_MS {
                    self.last_ping_ms = now_ms;
                    return TickAction::SendPing { timestamp: micros(now_ms) };
                }
            },
            _ => {},
        }
        TickAction::Wait
    }

    /// The error that a handshake which has timed out returns.
    pub fn timeout_error() -> (error: TransportError)
        ensures
            error is Timeout,
    {
        TransportError::Timeout
    }

    /// Prepares `frame` for the video channel: numbers it and returns the
    /// bytes to send. Video is best effort: after a disconnect or a lost
    /// session the frame is dropped without an error and `None` is
    /// returned. Before the session stands, sending is an error.
    pub fn send_video(&mut self, frame: &EncodedFrame) -> (bytes: Result<
        Option<Vec<u8>>,
        TransportError,
    >)
        ensures
            final(self)@ == old(self)@.video_step(frame@).0,
            match old(self)@.video_step(frame@).1 {
                VideoStep::Refused => bytes is Err && bytes->Err_0 is NotConnected,
                VideoStep::Dropped => bytes == Ok::<Option<Vec<u8>>, TransportError>(None),
                VideoStep::Leaves(wire) => bytes is Ok && bytes->Ok_0 is Some
                    && bytes->Ok_0->Some_0@ == wire,
            },
    {
        match self.state {
            ConnectionState::Idle | ConnectionState::Connecting => {
                return Err(TransportError::NotConnected);
            },
            ConnectionState::Draining | ConnectionState::Closed => {
                self.video_send_errors = count_up(self.video_send_errors, 1);
                return Ok(None);
            },
            ConnectionState::Connected => {},
        }
        let data = shared_to_vec(&frame.data);
        if data.len() > (u32::MAX - 64) as usize || data.len() > isize::MAX as usize - 64 {
            self.video_send_errors = count_up(self.video_send_errors, 1);
            return Ok(None);
        }
        let packet = VideoPacket {
            seq: self.video_seq,
            timestamp: frame.pts,
            data,
            key_frame: frame.key_frame,
            width: frame.width,
            height: frame.height,
            codec: wire_codec(frame.codec),
        };
        assert(packet@ == spec_packet(self.video_seq, frame@));
        let encoded = packet.to_bytes().unwrap();
        let out = match self.mode {
            TransportMode::SshTunnel => tunnel_frame(Channel::Video, 0, encoded.as_slice()).unwrap(),
            _ => encoded,
        };
        self.video_seq = if self.video_seq == u32::MAX {
            0
        } else {
            self.video_seq + 1
        };
        Ok(Some(out))
    }

    /// Whether video goes out as datagrams; otherwise it goes on the
    /// reliable video stream.
    pub fn uses_datagrams(&self) -> (datagrams: bool)
        ensures
            datagrams == self@.datagrams,
    {
        self.datagrams
    }

    /// Takes the outcome of handing `len` bytes of video to the network. A
    /// delivered packet is counted. A peer without datagrams moves the
    /// session to the reliable stream and asks for the bytes to be sent
    /// again there. A failure is swallowed and counted.
    pub fn video_sent(&mut self, outcome: SendOutcome, len: usize) -> (next: VideoFollowUp)
        ensures
            match outcome {
                SendOutcome::Delivered => next == VideoFollowUp::Done && final(self)@ == (
                SessionView {
                    stats: NetworkStats {
                        bytes_sent: spec_count_up(old(self)@.stats.bytes_sent, len as int),
                        packets_sent: spec_count_up(old(self)@.stats.packets_sent, 1),
                        ..old(self)@.stats
                    },
                    ..old(self)@
                }),
                SendOutcome::DatagramUnsupported => if old(self)@.datagrams {
                    next == VideoFollowUp::RetryOnStream && final(self)@ == (SessionView {
                        datagrams: false,
                        ..old(self)@
                    })
                } else {
                    next == VideoFollowUp::Done && final(self)@ == (SessionView {
                        video_send_errors: spec_count_up(old(self)@.video_send_errors, 1),
                        ..old(self)@
                    })
                },
                SendOutcome::Failed => next == VideoFollowUp::Done && final(self)@ == (SessionView {
                    video_send_errors: spec_count_up(old(self)@.video_send_errors, 1),
                    ..old(self)@
                }),
            },
    {
        match outcome {
            SendOutcome::Delivered => {
                self.stats.bytes_sent = count_up(self.stats.bytes_sent, len);
                self.stats.packets_sent = count_up(self.stats.packets_sent, 1);
                VideoFollowUp::Done
            },
            SendOutcome::DatagramUnsupported => {
                if self.datagrams {
                    self.datagrams = false;
                    VideoFollowUp::RetryOnStream
                } else {
                    self.video_send_errors = count_up(self.video_send_errors, 1);
                    VideoFollowUp::Done
                }
            },
            SendOutcome::Failed => {
                self.video_send_errors = count_up(self.video_send_errors, 1);
                VideoFollowUp::Done
            },
        }
    }

    /// The error that an operation on the reliable channels must report
    /// before anything else: the error of a lost session, once, and after
    /// it that the session is not connected.
    fn take_error(&mut self) -> (error: Option<TransportError>)
        ensures
            match old(self)@.pending_error {
                Some(e) => error == Some(e) && final(self)@ == (SessionView {
                    pending_error: None,
                    ..old(self)@
                }),
                None => final(self)@ == old(self)@ && if old(self)@.state
                    == ConnectionState::Connected {
                    error is None
                } else {
                    error is Some && error->Some_0 is NotConnected
                },
            },
    {
        match self.pending_error.take() {
            Some(e) => Some(e),
            None => match self.state {
                ConnectionState::Connected => None,
                _ => Some(TransportError::NotConnected),
            },
        }
    }

    /// Prepares an input event, given as its serialisation, for the input
    /// channel: numbers it and returns the frame to send. The events keep
    /// the order of their numbers. A lost session reports its error once;
    /// a session that is not connected refuses.
    pub fn send_input(&mut self, payload: &[u8]) -> (bytes: Result<Vec<u8>, TransportError>)
        ensures
            bytes is Ok <==> old(self)@.pending_error is None && old(self)@.state
                == ConnectionState::Connected && payload@.len() <= u32::MAX,
            bytes is Ok ==> bytes->Ok_0@ == old(self)@.input_bytes(payload@) && final(self)@ == (
            SessionView {
                input_seq: if old(self)@.input_seq == u64::MAX {
                    0
                } else {
                    (old(self)@.input_seq + 1) as u64
                },
                ..old(self)@
            }),
            bytes is Err ==> match old(self)@.pending_error {
                Some(e) => bytes->Err_0 == e && final(self)@ == (SessionView {
                    pending_error: None,
                    ..old(self)@
                }),
                None => final(self)@ == old(self)@ && if old(self)@.state
                    != ConnectionState::Connected {
                    bytes->Err_0 is NotConnected
                } else {
                    bytes->Err_0 is Codec
                },
            },
    {
        if let Some(e) = self.take_error() {
            return Err(e);
        }
        let framed = match self.mode {
            TransportMode::SshTunnel => tunnel_frame(Channel::Input, self.input_seq, payload),
            _ => frame(self.input_seq, payload),
        };
        match framed {
            Err(e) => Err(e),
            Ok(out) => {
                self.input_seq = if self.input_seq == u64::MAX {
                    0
                } else {
                    self.input_seq + 1
                };
                Ok(out)
            },
        }
    }

    /// Prepares a control packet, given as its serialisation, for the
    /// control channel. A lost session reports its error once; a session
    /// that is not connected refuses.
    pub fn send_control(&mut self, payload: &[u8]) -> (bytes: Result<Vec<u8>, TransportError>)
        ensures
            bytes is Ok <==> old(self)@.pending_error is None && old(self)@.state
                == ConnectionState::Connected && payload@.len() <= u32::MAX,
            bytes is Ok ==> bytes->Ok_0@ == old(self)@.control_bytes(payload@) && final(self)@ == (
            SessionView {
                control_seq: if old(self)@.control_seq == u64::MAX {
                    0
                } else {
                    (old(self)@.control_seq + 1) as u64
                },
                ..old(self)@
            }),
            bytes is Err ==> match old(self)@.pending_error {
                Some(e) => bytes->Err_0 == e && final(self)@ == (SessionView {
                    pending_error: None,
                    ..old(self)@
                }),
                None => final(self)@ == old(self)@ && if old(self)@.state
                    != ConnectionState::Connected {
                    bytes->Err_0 is NotConnected
                } else {
                    bytes->Err_0 is Codec
                },
            },
    {
        if let Some(e) = self.take_error() {
            return Err(e);
        }
        let framed = match self.mode {
            TransportMode::SshTunnel => tunnel_frame(Channel::Control, 0, payload),
            _ => frame(self.control_seq, payload),
        };
        match framed {
            Err(e) => Err(e),
            Ok(out) => {
                self.control_seq = if self.control_seq == u64::MAX {
                    0
                } else {
                    self.control_seq + 1
                };
                Ok(out)
            },
        }
    }

    /// Takes bytes that arrived on the video channel. A packet is counted
    /// and returned. Malformed bytes are counted and dropped; the session
    /// goes on.
    pub fn recv_video(&mut self, bytes: &[u8]) -> (packet: Result<VideoPacket, TransportError>)
        ensures
            match spec_decode(bytes@) {
                Some(p) => packet is Ok && packet->Ok_0@ == p && final(self)@ == (SessionView {
                    stats: NetworkStats {
                        bytes_received: spec_count_up(old(self)@.stats.bytes_received, bytes@.len() as int),
                        packets_received: spec_count_up(old(self)@.stats.packets_received, 1),
                        ..old(self)@.stats
                    },
                    ..old(self)@
                }),
                None => packet is Err && packet->Err_0 is InvalidPacket && final(self)@ == (
                SessionView {
                    invalid_packets: spec_count_up(old(self)@.invalid_packets, 1),
                    ..old(self)@
                }),
            },
    {
        match VideoPacket::decode(bytes) {
            Ok(packet) => {
                self.stats.bytes_received = count_up(self.stats.bytes_received, bytes.len());
                self.stats.packets_received = count_up(self.stats.packets_received, 1);
                Ok(packet)
            },
            Err(e) => {
                self.invalid_packets = count_up(self.invalid_packets, 1);
                Err(e)
            },
        }
    }

    /// Records a round trip, in microseconds.
    pub fn record_rtt(&mut self, rtt_us: u32)
        requires
            old(self)@.wf(),
        ensures
            final(self)@.wf(),
            final(self)@ == old(self)@.with_rtt(rtt_us),
    {
        push_window(&mut self.rtt_samples, rtt_us, RTT_WINDOW);
        self.stats.rtt_us = mean(&self.rtt_samples);
        self.stats.jitter_us = deviation(&self.rtt_samples);
    }

    /// Takes a report of deliveries at `now_us`: of `sent` packets, `lost`
    /// were lost. The loss rate of the statistics is taken over the
    /// reports of the last second.
    pub fn record_delivery(&mut self, sent: u32, lost: u32, now_us: u64)
        ensures
            final(self)@ == old(self)@.with_delivery(sent, lost, now_us),
    {
        self.deliveries.push_back(Delivery { time_us: now_us, sent, lost });
        let cutoff: u64 = if now_us >= LOSS_WINDOW_US {
            now_us - LOSS_WINDOW_US
        } else {
            0
        };
        let ghost pushed = self.deliveries@;
        let ghost before = self@;
        while self.deliveries.len() > 0 && self.deliveries[0].time_us < cutoff
            invariant
                spec_recent(pushed, cutoff) == spec_recent(self.deliveries@, cutoff),
                self@ == (SessionView { deliveries: self.deliveries@, ..before }),
            decreases self.deliveries@.len(),
        {
            let ghost held = self.deliveries@;
            let _ = self.deliveries.pop_front();
            assert(self.deliveries@ =~= held.skip(1));
        }
        let n = self.deliveries.len();
        let mut total_sent: u128 = 0;
        let mut total_lost: u128 = 0;
        let mut i: usize = 0;
        while i < n
            invariant
                i <= n,
                n == self.deliveries@.len(),
                total_sent == spec_sent(self.deliveries@, i as int),
                total_lost == spec_lost(self.deliveries@, i as int),
                self@ == (SessionView { deliveries: self.deliveries@, ..before }),
            decreases n - i,
        {
            proof {
                lemma_lost_within_sent(self.deliveries@, i as int);
                crate::arith::lemma_mul_le(i as int, u32::MAX as int, usize::MAX as int, u32::MAX as int);
                assert(usize::MAX * u32::MAX + u32::MAX < u128::MAX) by (nonlinear_arith);
            }
            let report = self.deliveries[i];
            total_sent = total_sent + report.sent as u128;
            total_lost = total_lost + if report.lost > report.sent {
                report.sent as u128
            } else {
                report.lost as u128
            };
            i += 1;
        }
        proof {
            lemma_lost_within_sent(self.deliveries@, n as int);
            crate::arith::lemma_mul_le(n as int, u32::MAX as int, usize::MAX as int, u32::MAX as int);
            assert(usize::MAX * u32::MAX * 1_000_000 < u128::MAX) by (nonlinear_arith);
            assert(total_lost * 1_000_000 <= usize::MAX * u32::MAX * 1_000_000) by (nonlinear_arith)
                requires
                    0 <= total_lost <= usize::MAX * u32::MAX,
            ;
        }
        self.stats.loss_ppm = if total_sent == 0 {
            0
        } else {
            let ppm: u128 = total_lost * 1_000_000 / total_sent;
            assert(ppm <= 1_000_000) by (nonlinear_arith)
                requires
                    ppm == (total_lost * 1_000_000) / (total_sent as int),
                    0 <= total_lost <= total_sent,
                    total_sent > 0,
            ;
            ppm as u32
        };
        self.stats.packets_lost = count_up(
            self.stats.packets_lost,
            if lost > sent {
                sent as usize
            } else {
                lost as usize
            },
        );
    }

    /// Takes the acknowledgement, at `now_us`, of `bytes` bytes on the
    /// control channel. The bandwidth of the statistics is the estimate
    /// from what was acknowledged within the last second, smoothed.
    pub fn record_acknowledged(&mut self, bytes: u64, now_us: u64)
        requires
            old(self)@.wf(),
        ensures
            final(self)@.wf(),
            final(self)@ == old(self)@.with_acknowledged(bytes, now_us),
    {
        self.estimator.record_arrival(bytes, now_us);
        self.stats.bandwidth_bps = self.estimator.get_estimate();
    }

    /// Takes a control packet that arrived, at `now_us` on the clock that
    /// stamps the pings. A ping is to be answered with its timestamp. A
    /// pong measures a round trip: the time since its timestamp. A connect
    /// response settles the handshake. A disconnect begins the drain.
    pub fn on_control(&mut self, packet: &ControlPacket, now_us: u64, now_ms: u64) -> (action:
        ControlAction)
        requires
            old(self)@.wf(),
        ensures
            final(self)@.wf(),
            match *packet {
                ControlPacket::Ping { timestamp } => action == (ControlAction::SendPong {
                    timestamp,
                }) && final(self)@ == old(self)@,
                ControlPacket::Pong { timestamp } => action == (ControlAction::RttMeasured {
                    rtt_us: spec_elapsed(timestamp, now_us),
                }) && final(self)@ == old(self)@.with_rtt(spec_elapsed(timestamp, now_us)),
                ControlPacket::ConnectResponse { success, .. } => if old(self)@.state
                    != ConnectionState::Connecting {
                    action == ControlAction::Ignore && final(self)@ == old(self)@
                } else if success {
                    action == ControlAction::Established && final(self)@ == (SessionView {
                        state: ConnectionState::Connected,
                        last_ping_ms: now_ms,
                        ..old(self)@
                    })
                } else {
                    action == ControlAction::Refused && final(self)@ == (SessionView {
                        state: ConnectionState::Closed,
                        ..old(self)@
                    })
                },
                ControlPacket::Disconnect { .. } => if old(self)@.state
                    == ConnectionState::Connected {
                    action == ControlAction::Drain && final(self)@ == (SessionView {
                        state: ConnectionState::Draining,
                        drain_started_ms: now_ms,
                        ..old(self)@
                    })
                } else {
                    action == ControlAction::Ignore && final(self)@ == old(self)@
                },
                _ => action == ControlAction::Ignore && final(self)@ == old(self)@,
            },
    {
        match packet {
            ControlPacket::Ping { timestamp } => ControlAction::SendPong { timestamp: *timestamp },
            ControlPacket::Pong { timestamp } => {
                let rtt_us = elapsed(*timestamp, now_us);
                self.record_rtt(rtt_us);
                ControlAction::RttMeasured { rtt_us }
            },
            ControlPacket::ConnectResponse { success, .. } => self.on_connect_response(
                *success,
                now_ms,
            ),
            ControlPacket::Disconnect { .. } => match self.state {
                ConnectionState::Connected => {
                    self.state = ConnectionState::Draining;
                    self.drain_started_ms = now_ms;
                    ControlAction::Drain
                },
                _ => ControlAction::Ignore,
            },
            _ => ControlAction::Ignore,
        }
    }

    /// Disconnects at `now_ms`. A connected session begins its drain and
    /// returns `true`: a disconnect is to be sent to the peer. A session
    /// that never stood is closed at once.
    pub fn disconnect(&mut self, now_ms: u64) -> (announce: bool)
        ensures
            announce <==> old(self)@.state == ConnectionState::Connected,
            final(self)@ == old(self)@.disconnected(now_ms),
    {
        match self.state {
            ConnectionState::Connected => {
                self.state = ConnectionState::Draining;
                self.drain_started_ms = now_ms;
                true
            },
            ConnectionState::Idle | ConnectionState::Connecting => {
                self.state = ConnectionState::Closed;
                false
            },
            _ => false,
        }
    }

    /// Takes the loss of the underlying session: the session is closed,
    /// and `error` is kept for the next operation on a reliable channel to
    /// report, once. A session that is closed already keeps what it has.
    pub fn on_session_lost(&mut self, error: TransportError)
        ensures
            final(self)@ == if old(self)@.state == ConnectionState::Closed {
                old(self)@
            } else {
                SessionView {
                    state: ConnectionState::Closed,
                    pending_error: Some(error),
                    ..old(self)@
                }
            },
    {
        match self.state {
            ConnectionState::Closed => {},
            _ => {
                self.state = ConnectionState::Closed;
                self.pending_error = Some(error);
            },
        }
    }

    /// A snapshot of the statistics.
    pub fn stats(&self) -> (stats: NetworkStats)
        ensures
            stats == self@.stats,
    {
        self.stats
    }

    /// The round-trip time, in microseconds, that 95 of 100 samples of the
    /// window do not exceed; 0 without samples.
    pub fn p95_rtt(&self) -> (rtt_us: u64)
        ensures
            rtt_us == spec_percentile(self@.rtt_samples, 950),
    {
        percentile_of(&self.rtt_samples, 950)
    }

    /// The round-trip time, in microseconds, that 99 of 100 samples of the
    /// window do not exceed; 0 without samples.
    pub fn p99_rtt(&self) -> (rtt_us: u64)
        ensures
            rtt_us == spec_percentile(self@.rtt_samples, 990),
    {
        percentile_of(&self.rtt_samples, 990)
    }

    /// Whether the session stands.
    pub fn is_connected(&self) -> (connected: bool)
        ensures
            connected <==> self@.state == ConnectionState::Connected,
    {
        match self.state {
            ConnectionState::Connected => true,
            _ => false,
        }
    }

    /// Where the session stands.
    pub fn state(&self) -> (state: ConnectionState)
        ensures
            state == self@.state,
    {
        self.state
    }

    /// The protocol that carries the session.
    pub fn mode(&self) -> (mode: TransportMode)
        ensures
            mode == self@.mode,
    {
        self.mode
    }
}

/// Whether a payload of `len` bytes fits a video packet on this machine.
pub open spec fn spec_sendable(len: nat) -> bool {
    len <= u32::MAX - 64 && len <= isize::MAX - 64
}

/// The version that a client announces.
pub open spec fn spec_client_version() -> Seq<char> {
    "0.1.0"@
}

/// A drain that began at one time is over, and the session closed, at any
/// tick a drain time or more later.
pub proof fn lemma_drain_closes(session: SessionView, now_ms: u64)
    requires
        session.state == ConnectionState::Draining,
        now_ms >= session.drain_started_ms + DRAIN_MS,
    ensures
        session.ticked(now_ms).0.state == ConnectionState::Closed,
        session.ticked(now_ms).1 == TickAction::Close,
{
}

/// A session that stands, or never stood, and is asked to disconnect is
/// closed at any tick a drain time or more later: the drain has a budget
/// of a tenth of a second.
pub proof fn lemma_disconnect_closes(session: SessionView, asked_ms: u64, now_ms: u64)
    requires
        session.state != ConnectionState::Draining,
        now_ms >= asked_ms + DRAIN_MS,
    ensures
        session.disconnected(asked_ms).ticked(now_ms).0.state == ConnectionState::Closed,
{
}

/// A handshake that is not answered is given up, and the session closed,
/// at any tick a timeout or more after it began.
pub proof fn lemma_handshake_times_out(session: SessionView, now_ms: u64)
    requires
        session.state == ConnectionState::Connecting,
        now_ms >= session.connect_started_ms + session.timeout_ms,
    ensures
        session.ticked(now_ms).0.state == ConnectionState::Closed,
        session.ticked(now_ms).1 == TickAction::TimedOut,
{
}

} // verus!
