//! Packets of the three logical channels and the bit-exact layout of the
//! video packet.

use crate::text::join;
use crate::transport::wire::be_u32;
use crate::transport::wire::be_u64;
use crate::transport::wire::buffer_bytes;
use crate::transport::wire::buffer_len;
use crate::transport::wire::buffer_new;
use crate::transport::wire::buffer_reserve;
use crate::transport::wire::buffer_to_vec;
use crate::transport::wire::get_u32;
use crate::transport::wire::get_u64;
use crate::transport::wire::get_u8;
use crate::transport::wire::lemma_be_u32_roundtrip;
use crate::transport::wire::lemma_be_u64_roundtrip;
use crate::transport::wire::lemma_u32_from_be_roundtrip;
use crate::transport::wire::lemma_u64_from_be_roundtrip;
use crate::transport::wire::put_slice;
use crate::transport::wire::put_u32;
use crate::transport::wire::put_u64;
use crate::transport::wire::put_u8;
use crate::transport::wire::u32_from_be;
use crate::transport::wire::u64_from_be;
use vstd::prelude::*;
use vstd::slice::slice_subrange;
use vstd::slice::slice_to_vec;

verus! {

/// What can go wrong on a transport.
#[derive(Debug, Clone, PartialEq, Eq)]
pub enum TransportError {
    /// The underlying I/O failed.
    Io(String),
    /// A payload could not be serialised or parsed.
    Codec(String),
    /// The connection could not be made or was lost.
    Connection(String),
    /// An operation did not finish in its time.
    Timeout,
    /// The transport is not in the connected state.
    NotConnected,
    /// Wire data was malformed.
    InvalidPacket,
}

impl TransportError {
    /// The sentence that presents this error.
    pub open spec fn spec_message(self) -> Seq<char> {
        match self {
            TransportError::Io(e) => "IO error: "@ + e@,
            TransportError::Codec(e) => "Codec error: "@ + e@,
            TransportError::Connection(e) => "Connection error: "@ + e@,
            TransportError::Timeout => "Operation timeout"@,
            TransportError::NotConnected => "Not connected"@,
            TransportError::InvalidPacket => "Invalid packet"@,
        }
    }

    /// The sentence that presents this error.
    pub fn to_string(&self) -> (text: String)
        ensures
            text@ == self.spec_message(),
    {
        match self {
            TransportError::Io(e) => join("IO error: ", e.as_str()),
            TransportError::Codec(e) => join("Codec error: ", e.as_str()),
            TransportError::Connection(e) => join("Connection error: ", e.as_str()),
            TransportError::Timeout => "Operation timeout".to_string(),
            TransportError::NotConnected => "Not connected".to_string(),
            TransportError::InvalidPacket => "Invalid packet".to_string(),
        }
    }
}

/// A snapshot of what a transport has measured. Times are in microseconds
/// and the loss rate in lost packets per million sent.
#[derive(Debug, Clone, Copy, PartialEq, Eq, Structural)]
pub struct NetworkStats {
    /// Round-trip time, in microseconds.
    pub rtt_us: u64,
    /// Lost packets per million sent, at most one million.
    pub loss_ppm: u32,
    /// Estimated bandwidth, in bits per second.
    pub bandwidth_bps: u32,
    /// Variation of the round-trip time, in microseconds.
    pub jitter_us: u64,
    /// Bytes handed to the network.
    pub bytes_sent: u64,
    /// Bytes taken from the network.
    pub bytes_received: u64,
    /// Packets handed to the network.
    pub packets_sent: u64,
    /// Packets taken from the network.
    pub packets_received: u64,
    /// Packets known to be lost.
    pub packets_lost: u64,
}

impl NetworkStats {
    /// The snapshot of a transport that has measured nothing yet.
    pub open spec fn spec_default() -> NetworkStats {
        NetworkStats {
            rtt_us: 0,
            loss_ppm: 0,
            bandwidth_bps: 0,
            jitter_us: 0,
            bytes_sent: 0,
            bytes_received: 0,
            packets_sent: 0,
            packets_received: 0,
            packets_lost: 0,
        }
    }
}

impl Default for NetworkStats {
    fn default() -> (stats: Self)
        ensures
            stats == NetworkStats::spec_default(),
    {
        NetworkStats {
            rtt_us: 0,
            loss_ppm: 0,
            bandwidth_bps: 0,
            jitter_us: 0,
            bytes_sent: 0,
            bytes_received: 0,
            packets_sent: 0,
            packets_received: 0,
            packets_lost: 0,
        }
    }
}

/// The codec named by the last header byte of a video packet.
#[derive(Debug, Clone, Copy, PartialEq, Eq, Structural)]
pub enum VideoCodec {
    H264,
    H265,
    VP9,
    AV1,
}

impl VideoCodec {
    /// The byte that stands for this codec on the wire.
    pub open spec fn spec_to_byte(self) -> u8 {
        match self {
            VideoCodec::H264 => 0,
            VideoCodec::H265 => 1,
            VideoCodec::VP9 => 2,
            VideoCodec::AV1 => 3,
        }
    }

    /// The codec that a wire byte stands for, if any.
    pub open spec fn spec_from_byte(b: u8) -> Option<VideoCodec> {
        if b == 0 {
            Some(VideoCodec::H264)
        } else if b == 1 {
            Some(VideoCodec::H265)
        } else if b == 2 {
            Some(VideoCodec::VP9)
        } else if b == 3 {
            Some(VideoCodec::AV1)
        } else {
            None
        }
    }

    /// The byte that stands for this codec on the wire.
    pub fn to_byte(&self) -> (b: u8)
        ensures
            b == self.spec_to_byte(),
    {
        match self {
            VideoCodec::H264 => 0,
            VideoCodec::H265 => 1,
            VideoCodec::VP9 => 2,
            VideoCodec::AV1 => 3,
        }
    }

    /// The codec that a wire byte stands for; `None` for a byte outside the
    /// set.
    pub fn from_byte(b: u8) -> (codec: Option<VideoCodec>)
        ensures
            codec == VideoCodec::spec_from_byte(b),
    {
        match b {
            0 => Some(VideoCodec::H264),
            1 => Some(VideoCodec::H265),
            2 => Some(VideoCodec::VP9),
            3 => Some(VideoCodec::AV1),
            _ => None,
        }
    }
}

/// One encoded frame as it travels on the video channel.
#[derive(Debug, Clone, PartialEq, Eq)]
pub struct VideoPacket {
    /// Sequence number, by which the receiver detects loss and reorders.
    pub seq: u32,
    /// Producer clock, in microseconds.
    pub timestamp: u64,
    /// The compressed frame.
    pub data: Vec<u8>,
    /// Whether the frame can be decoded on its own.
    pub key_frame: bool,
    /// Width of the picture, in pixels.
    pub width: u32,
    /// Height of the picture, in pixels.
    pub height: u32,
    /// Codec of the payload.
    pub codec: VideoCodec,
}

/// A video packet as a mathematical value.
pub struct VideoPacketView {
    pub seq: u32,
    pub timestamp: u64,
    pub data: Seq<u8>,
    pub key_frame: bool,
    pub width: u32,
    pub height: u32,
    pub codec: VideoCodec,
}

impl View for VideoPacket {
    type V = VideoPacketView;

    open spec fn view(&self) -> VideoPacketView {
        VideoPacketView {
            seq: self.seq,
            timestamp: self.timestamp,
            data: self.data@,
            key_frame: self.key_frame,
            width: self.width,
            height: self.height,
            codec: self.codec,
        }
    }
}

/// Bytes of the header that precedes the payload of a video packet.
pub open spec fn spec_header_size() -> nat {
    26
}

/// The wire form of a packet: the header fields in order, each big-endian,
/// then the payload.
pub open spec fn spec_encode(p: VideoPacketView) -> Seq<u8> {
    be_u32(p.seq) + be_u64(p.timestamp) + be_u32(p.data.len() as u32) + seq![
        if p.key_frame {
            1u8
        } else {
            0u8
        },
    ] + be_u32(p.width) + be_u32(p.height) + seq![p.codec.spec_to_byte()] + p.data
}

/// The packet that a byte string holds: `None` where the header is cut short,
/// the codec byte is outside the set, or fewer payload bytes follow than the
/// header announces. Bytes after the payload are ignored.
pub open spec fn spec_decode(bytes: Seq<u8>) -> Option<VideoPacketView> {
    if bytes.len() < spec_header_size() {
        None
    } else {
        let data_len = u32_from_be(bytes.subrange(12, 16));
        match VideoCodec::spec_from_byte(bytes[25]) {
            None => None,
            Some(codec) => if bytes.len() - spec_header_size() < data_len {
                None
            } else {
                Some(
                    VideoPacketView {
                        seq: u32_from_be(bytes.subrange(0, 4)),
                        timestamp: u64_from_be(bytes.subrange(4, 12)),
                        data: bytes.subrange(26, 26 + data_len),
                        key_frame: bytes[16] != 0,
                        width: u32_from_be(bytes.subrange(17, 21)),
                        height: u32_from_be(bytes.subrange(21, 25)),
                        codec,
                    },
                )
            },
        }
    }
}

/// Whether a packet fits the wire format: its payload length must fit the
/// 32-bit length field.
pub open spec fn encodable(p: VideoPacketView) -> bool {
    p.data.len() <= u32::MAX
}

/// Decoding the wire form of a packet gives the packet back.
pub proof fn lemma_decode_encode(p: VideoPacketView)
    requires
        encodable(p),
    ensures
        spec_encode(p).len() == spec_header_size() + p.data.len(),
        spec_decode(spec_encode(p)) == Some(p),
{
    let b = spec_encode(p);
    let n = p.data.len() as u32;
    lemma_be_u32_roundtrip(p.seq);
    lemma_be_u64_roundtrip(p.timestamp);
    lemma_be_u32_roundtrip(n);
    lemma_be_u32_roundtrip(p.width);
    lemma_be_u32_roundtrip(p.height);
    assert(b.len() == 26 + p.data.len());
    assert(b.subrange(0, 4) =~= be_u32(p.seq));
    assert(b.subrange(4, 12) =~= be_u64(p.timestamp));
    assert(b.subrange(12, 16) =~= be_u32(n));
    assert(b.subrange(17, 21) =~= be_u32(p.width));
    assert(b.subrange(21, 25) =~= be_u32(p.height));
    assert(b[25] == p.codec.spec_to_byte());
    assert(VideoCodec::spec_from_byte(p.codec.spec_to_byte()) == Some(p.codec));
    assert(b.subrange(26, 26 + n) =~= p.data);
    assert(b[16] != 0 <==> p.key_frame);
}

/// Encoding a decoded packet gives the bytes back, where the key-frame byte
/// is 0 or 1 and nothing follows the payload.
pub proof fn lemma_encode_decode(bytes: Seq<u8>)
    requires
        spec_decode(bytes) is Some,
        bytes[16] <= 1,
        bytes.len() == spec_header_size() + spec_decode(bytes)->Some_0.data.len(),
    ensures
        spec_encode(spec_decode(bytes)->Some_0) == bytes,
{
    let p = spec_decode(bytes)->Some_0;
    lemma_u32_from_be_roundtrip(bytes.subrange(0, 4));
    lemma_u64_from_be_roundtrip(bytes.subrange(4, 12));
    lemma_u32_from_be_roundtrip(bytes.subrange(12, 16));
    lemma_u32_from_be_roundtrip(bytes.subrange(17, 21));
    lemma_u32_from_be_roundtrip(bytes.subrange(21, 25));
    let data_len = u32_from_be(bytes.subrange(12, 16));
    assert(p.data.len() == data_len);
    assert(spec_encode(p) =~= bytes);
}

impl VideoPacket {
    /// Bytes of the header, the payload not counted.
    pub const HEADER_SIZE: usize = 4 + 8 + 4 + 1 + 4 + 4 + 1;

    /// Appends the wire form of the packet to `buf`.
    pub fn encode(&self, buf: &mut bytes::BytesMut)
        requires
            encodable(self@),
            buffer_bytes(*old(buf)).len() + spec_header_size() + self.data@.len() <= isize::MAX,
        ensures
            buffer_bytes(*final(buf)) == buffer_bytes(*old(buf)) + spec_encode(self@),
    {
        let ghost before = buffer_bytes(*buf);
        buffer_reserve(buf, self.data.len() + Self::HEADER_SIZE);
        put_u32(buf, self.seq);
        put_u64(buf, self.timestamp);
        put_u32(buf, self.data.len() as u32);
        put_u8(
            buf,
            if self.key_frame {
                1
            } else {
                0
            },
        );
        put_u32(buf, self.width);
        put_u32(buf, self.height);
        put_u8(buf, self.codec.to_byte());
        put_slice(buf, self.data.as_slice());
        assert(buffer_bytes(*buf) =~= before + spec_encode(self@));
    }

    /// Appends the wire form of the packet to `buf` where it fits the format
    /// and the buffer; otherwise leaves `buf` as it is and returns `false`.
    pub fn try_encode(&self, buf: &mut bytes::BytesMut) -> (done: bool)
        ensures
            done <==> encodable(self@) && buffer_bytes(*old(buf)).len() + spec_header_size()
                + self.data@.len() <= isize::MAX,
            done ==> buffer_bytes(*final(buf)) == buffer_bytes(*old(buf)) + spec_encode(self@),
            !done ==> buffer_bytes(*final(buf)) == buffer_bytes(*old(buf)),
    {
        let held = buffer_len(buf);
        let limit: usize = isize::MAX as usize;
        if self.data.len() > u32::MAX as usize || held > limit || self.data.len() > limit - held
            || Self::HEADER_SIZE > limit - held - self.data.len() {
            false
        } else {
            self.encode(buf);
            true
        }
    }

    /// The wire form of the packet, or `None` where its payload is too long
    /// for the format.
    pub fn to_bytes(&self) -> (bytes: Option<Vec<u8>>)
        ensures
            bytes is Some <==> encodable(self@) && spec_header_size() + self.data@.len()
                <= isize::MAX,
            bytes is Some ==> bytes->Some_0@ == spec_encode(self@),
    {
        let mut buf = buffer_new();
        if self.try_encode(&mut buf) {
            let out = buffer_to_vec(&buf);
            assert(out@ =~= spec_encode(self@));
            Some(out)
        } else {
            None
        }
    }

    /// Reads a packet from its wire form. A header cut short, a codec byte
    /// outside the set and a payload shorter than announced are each an
    /// invalid packet.
    pub fn decode(buf: &[u8]) -> (packet: Result<VideoPacket, TransportError>)
        ensures
            match spec_decode(buf@) {
                Some(p) => packet is Ok && packet->Ok_0@ == p,
                None => packet is Err && packet->Err_0 is InvalidPacket,
            },
    {
        if buf.len() < Self::HEADER_SIZE {
            return Err(TransportError::InvalidPacket);
        }
        let seq = get_u32(buf, 0);
        let timestamp = get_u64(buf, 4);
        let data_len = get_u32(buf, 12) as usize;
        let key_frame = get_u8(buf, 16) != 0;
        let width = get_u32(buf, 17);
        let height = get_u32(buf, 21);
        let codec = match VideoCodec::from_byte(get_u8(buf, 25)) {
            Some(codec) => codec,
            None => {
                return Err(TransportError::InvalidPacket);
            },
        };
        if buf.len() - Self::HEADER_SIZE < data_len {
            return Err(TransportError::InvalidPacket);
        }
        let data = slice_to_vec(slice_subrange(buf, Self::HEADER_SIZE, Self::HEADER_SIZE + data_len));
        Ok(VideoPacket { seq, timestamp, data, key_frame, width, height, codec })
    }
}

impl Default for VideoPacket {
    fn default() -> (packet: Self)
        ensures
            packet.seq == 0,
            packet.timestamp == 0,
            packet.data@ == Seq::<u8>::empty(),
            !packet.key_frame,
            packet.width == 1920,
            packet.height == 1080,
            packet.codec == VideoCodec::H264,
    {
        VideoPacket {
            seq: 0,
            timestamp: 0,
            data: Vec::new(),
            key_frame: false,
            width: 1920,
            height: 1080,
            codec: VideoCodec::H264,
        }
    }
}

/// The server's answer to one input event.
#[derive(Debug, Clone, Copy, PartialEq, Eq, Structural)]
pub struct InputAck {
    /// Sequence number of the event that is answered.
    pub seq: u64,
    /// Server clock at the answer, in microseconds.
    pub timestamp: u64,
    /// Whether the event was injected.
    pub success: bool,
}

/// Messages of the control channel.
#[derive(Debug, PartialEq, Eq)]
pub enum ControlPacket {
    /// Opens a session.
    Connect { client_version: String, capabilities: Vec<String> },
    /// Answers `Connect`; the session stands if and only if `success`.
    ConnectResponse { success: bool, server_version: String, session_id: String },
    /// Asks for an echo of `timestamp`.
    Ping { timestamp: u64 },
    /// Echoes the `timestamp` of a `Ping`.
    Pong { timestamp: u64 },
    /// Closes all channels after the drain time.
    Disconnect { reason: String },
    /// Probes the path with `size` bytes.
    BandwidthProbe { seq: u32, size: u32 },
    /// Answers a probe.
    BandwidthAck { seq: u32, received_at: u64 },
    /// Announces new video parameters.
    VideoParams { bitrate: u32, fps: u8, resolution: (u32, u32) },
}

impl Clone for ControlPacket {
    fn clone(&self) -> (copy: Self)
        ensures
            copy is Ping ==> copy == *self,
            copy is Pong ==> copy == *self,
            copy is Disconnect ==> copy == *self,
            copy is ConnectResponse ==> copy == *self,
            copy is BandwidthProbe ==> copy == *self,
            copy is BandwidthAck ==> copy == *self,
            copy is VideoParams ==> copy == *self,
            self is Connect <==> copy is Connect,
            self is ConnectResponse <==> copy is ConnectResponse,
            self is Disconnect <==> copy is Disconnect,
            self is Ping <==> copy is Ping,
            self is Pong <==> copy is Pong,
            self is BandwidthProbe <==> copy is BandwidthProbe,
            self is BandwidthAck <==> copy is BandwidthAck,
    {
        match self {
            ControlPacket::Connect { client_version, capabilities } => ControlPacket::Connect {
                client_version: client_version.clone(),
                capabilities: capabilities.clone(),
            },
            ControlPacket::ConnectResponse {
                success,
                server_version,
                session_id,
            } => ControlPacket::ConnectResponse {
                success: *success,
                server_version: server_version.clone(),
                session_id: session_id.clone(),
            },
            ControlPacket::Ping { timestamp } => ControlPacket::Ping { timestamp: *timestamp },
            ControlPacket::Pong { timestamp } => ControlPacket::Pong { timestamp: *timestamp },
            ControlPacket::Disconnect { reason } => ControlPacket::Disconnect {
                reason: reason.clone(),
            },
            ControlPacket::BandwidthProbe { seq, size } => ControlPacket::BandwidthProbe {
                seq: *seq,
                size: *size,
            },
            ControlPacket::BandwidthAck { seq, received_at } => ControlPacket::BandwidthAck {
                seq: *seq,
                received_at: *received_at,
            },
            ControlPacket::VideoParams { bitrate, fps, resolution } => ControlPacket::VideoParams {
                bitrate: *bitrate,
                fps: *fps,
                resolution: *resolution,
            },
        }
    }
}

/// The protocol that carries a session.
#[derive(Debug, Clone, Copy, PartialEq, Eq, Structural)]
pub enum TransportMode {
    /// Secure transport with unreliable datagrams.
    Quic,
    /// Secure transport that browsers speak.
    WebTransport,
    /// Reliable stream through a tunnel.
    SshTunnel,
}

/// How to reach a server and what to stream at first.
#[derive(Debug, PartialEq, Eq)]
pub struct ConnectionConfig {
    /// Server address, as `host:port`.
    pub addr: String,
    /// Protocol to use.
    pub mode: TransportMode,
    /// Path of a root certificate to trust, if one is pinned.
    pub cert_path: Option<String>,
    /// Seconds after which a connection attempt is given up.
    pub timeout_secs: u64,
    /// Initial video bitrate, in bits per second.
    pub video_bitrate: u32,
    /// Initial frame rate.
    pub fps: u8,
    /// Initial resolution, width then height.
    pub resolution: (u32, u32),
}

impl Clone for ConnectionConfig {
    fn clone(&self) -> (copy: Self)
        ensures
            copy.addr@ == self.addr@,
            copy.mode == self.mode,
            copy.cert_path is Some <==> self.cert_path is Some,
            copy.cert_path is Some ==> copy.cert_path->Some_0@ == self.cert_path->Some_0@,
            copy.timeout_secs == self.timeout_secs,
            copy.video_bitrate == self.video_bitrate,
            copy.fps == self.fps,
            copy.resolution == self.resolution,
    {
        ConnectionConfig {
            addr: self.addr.clone(),
            mode: self.mode,
            cert_path: match &self.cert_path {
                Some(path) => Some(path.clone()),
                None => None,
            },
            timeout_secs: self.timeout_secs,
            video_bitrate: self.video_bitrate,
            fps: self.fps,
            resolution: self.resolution,
        }
    }
}

impl Default for ConnectionConfig {
    fn default() -> (config: Self)
        ensures
            config.addr@ == "127.0.0.1:8080"@,
            config.mode == TransportMode::Quic,
            config.cert_path is None,
            config.timeout_secs == 10,
            config.video_bitrate == 10_000_000,
            config.fps == 60,
            config.resolution == (1920u32, 1080u32),
    {
        ConnectionConfig {
            addr: "127.0.0.1:8080".to_string(),
            mode: TransportMode::Quic,
            cert_path: None,
            timeout_secs: 10,
            video_bitrate: 10_000_000,
            fps: 60,
            resolution: (1920, 1080),
        }
    }
}

} // verus!
