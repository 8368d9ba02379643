//! Frames of the reliable channels: a sequence number, a length and the
//! payload, all integers big-endian; and the tagged frames of the tunnel,
//! which carries all three channels in one stream.

use crate::transport::protocol::TransportError;
use crate::transport::wire::be_u32;
use crate::transport::wire::be_u64;
use crate::transport::wire::get_u32;
use crate::transport::wire::get_u64;
use crate::transport::wire::lemma_be_u32_roundtrip;
use crate::transport::wire::lemma_be_u64_roundtrip;
use crate::transport::wire::u32_from_be;
use crate::transport::wire::u64_from_be;
use vstd::prelude::*;
use vstd::slice::slice_subrange;
use vstd::slice::slice_to_vec;

verus! {

/// Bytes of the header of a frame: sequence number and length.
pub const FRAME_HEADER: usize = 12;

/// Appends the four bytes of `x`, most significant first.
pub fn push_be_u32(out: &mut Vec<u8>, x: u32)
    ensures
        final(out)@ == old(out)@ + be_u32(x),
{
    out.push((x / 0x100 / 0x100 / 0x100) as u8);
    out.push((x / 0x100 / 0x100 % 0x100) as u8);
    out.push((x / 0x100 % 0x100) as u8);
    out.push((x % 0x100) as u8);
    assert(out@ =~= old(out)@ + be_u32(x));
}

/// Appends the eight bytes of `x`, most significant first.
pub fn push_be_u64(out: &mut Vec<u8>, x: u64)
    ensures
        final(out)@ == old(out)@ + be_u64(x),
{
    push_be_u32(out, (x / 0x1_0000_0000) as u32);
    push_be_u32(out, (x % 0x1_0000_0000) as u32);
    assert(out@ =~= old(out)@ + be_u64(x));
}

/// Appends the bytes of `src`.
pub fn push_all(out: &mut Vec<u8>, src: &[u8])
    ensures
        final(out)@ == old(out)@ + src@,
{
    let mut i: usize = 0;
    while i < src.len()
        invariant
            i <= src@.len(),
            out@ == old(out)@ + src@.take(i as int),
        decreases src@.len() - i,
    {
        out.push(src[i]);
        assert(out@ =~= old(out)@ + src@.take(i + 1));
        i += 1;
    }
    assert(src@.take(src@.len() as int) =~= src@);
}

/// The frame of a payload: sequence number, length, payload.
pub open spec fn spec_frame(seq: u64, payload: Seq<u8>) -> Seq<u8> {
    be_u64(seq) + be_u32(payload.len() as u32) + payload
}

/// A frame that was read, and the bytes it took.
pub struct ParsedFrame {
    /// Sequence number of the frame.
    pub seq: u64,
    /// Payload of the frame.
    pub payload: Seq<u8>,
    /// Bytes of the stream that the frame occupied.
    pub consumed: nat,
}

/// The first frame in a stream of bytes, or `None` while the stream holds
/// less than a whole frame.
pub open spec fn spec_parse_frame(stream: Seq<u8>) -> Option<ParsedFrame> {
    if stream.len() < FRAME_HEADER {
        None
    } else {
        let len = u32_from_be(stream.subrange(8, 12));
        if stream.len() - FRAME_HEADER < len {
            None
        } else {
            Some(
                ParsedFrame {
                    seq: u64_from_be(stream.subrange(0, 8)),
                    payload: stream.subrange(12, 12 + len),
                    consumed: (12 + len) as nat,
                },
            )
        }
    }
}

/// Reading a frame, with whatever follows it, gives its sequence number and
/// payload back, and takes exactly the frame from the stream.
pub proof fn lemma_parse_frame(seq: u64, payload: Seq<u8>, rest: Seq<u8>)
    requires
        payload.len() <= u32::MAX,
    ensures
        spec_parse_frame(spec_frame(seq, payload) + rest) == Some(
            ParsedFrame {
                seq,
                payload,
                consumed: spec_frame(seq, payload).len(),
            },
        ),
{
    let stream = spec_frame(seq, payload) + rest;
    lemma_be_u64_roundtrip(seq);
    lemma_be_u32_roundtrip(payload.len() as u32);
    assert(stream.subrange(0, 8) =~= be_u64(seq));
    assert(stream.subrange(8, 12) =~= be_u32(payload.len() as u32));
    assert(stream.subrange(12, 12 + payload.len() as int) =~= payload);
}

/// Frames a payload for a reliable channel. A payload too long for the
/// length field is refused as a codec error.
pub fn frame(seq: u64, payload: &[u8]) -> (framed: Result<Vec<u8>, TransportError>)
    ensures
        framed is Ok <==> payload@.len() <= u32::MAX,
        framed is Ok ==> framed->Ok_0@ == spec_frame(seq, payload@),
        framed is Err ==> framed->Err_0 is Codec,
{
    if payload.len() > u32::MAX as usize {
        return Err(TransportError::Codec("payload too long for a frame".to_string()));
    }
    let mut out: Vec<u8> = Vec::new();
    push_be_u64(&mut out, seq);
    push_be_u32(&mut out, payload.len() as u32);
    push_all(&mut out, payload);
    assert(out@ =~= spec_frame(seq, payload@));
    Ok(out)
}

/// Reads the first frame of a stream of bytes: its sequence number, its
/// payload and the bytes it took. `None` while the stream holds less than
/// a whole frame.
pub fn parse_frame(stream: &[u8]) -> (parsed: Option<(u64, Vec<u8>, usize)>)
    ensures
        match spec_parse_frame(stream@) {
            Some(frame) => parsed is Some && parsed->Some_0.0 == frame.seq && parsed->Some_0.1@
                == frame.payload && parsed->Some_0.2 == frame.consumed,
            None => parsed is None,
        },
{
    if stream.len() < FRAME_HEADER {
        return None;
    }
    let seq = get_u64(stream, 0);
    let len = get_u32(stream, 8) as usize;
    if stream.len() - FRAME_HEADER < len {
        return None;
    }
    let payload = slice_to_vec(slice_subrange(stream, FRAME_HEADER, FRAME_HEADER + len));
    Some((seq, payload, FRAME_HEADER + len))
}

/// The channel that a frame of the tunnel belongs to.
#[derive(Debug, Clone, Copy, PartialEq, Eq, Structural)]
pub enum Channel {
    /// Video packets.
    Video,
    /// Input events.
    Input,
    /// Control packets.
    Control,
}

/// The tag that opens a frame of a channel in the tunnel.
pub open spec fn spec_tag(channel: Channel) -> Seq<u8> {
    match channel {
        Channel::Video => seq![0x56u8, 0x49, 0x44, 0x45, 0x4f],
        Channel::Input => seq![0x49u8, 0x4e, 0x50, 0x55, 0x54],
        Channel::Control => seq![0x43u8, 0x54, 0x52, 0x4c],
    }
}

/// A frame of the tunnel: the tag of its channel, for an input event its
/// sequence number, then the length and the payload.
pub open spec fn spec_tunnel_frame(channel: Channel, seq: u64, payload: Seq<u8>) -> Seq<u8> {
    match channel {
        Channel::Input => spec_tag(channel) + be_u64(seq) + be_u32(payload.len() as u32)
            + payload,
        _ => spec_tag(channel) + be_u32(payload.len() as u32) + payload,
    }
}

/// Appends the tag of a channel.
pub fn push_tag(out: &mut Vec<u8>, channel: Channel)
    ensures
        final(out)@ == old(out)@ + spec_tag(channel),
{
    match channel {
        Channel::Video => {
            out.push(0x56);
            out.push(0x49);
            out.push(0x44);
            out.push(0x45);
            out.push(0x4f);
        },
        Channel::Input => {
            out.push(0x49);
            out.push(0x4e);
            out.push(0x50);
            out.push(0x55);
            out.push(0x54);
        },
        Channel::Control => {
            out.push(0x43);
            out.push(0x54);
            out.push(0x52);
            out.push(0x4c);
        },
    }
    assert(out@ =~= old(out)@ + spec_tag(channel));
}

/// Frames a payload for the tunnel. `seq` is written for input events
/// only. A payload too long for the length field is refused as a codec
/// error.
pub fn tunnel_frame(channel: Channel, seq: u64, payload: &[u8]) -> (framed: Result<
    Vec<u8>,
    TransportError,
>)
    ensures
        framed is Ok <==> payload@.len() <= u32::MAX,
        framed is Ok ==> framed->Ok_0@ == spec_tunnel_frame(channel, seq, payload@),
        framed is Err ==> framed->Err_0 is Codec,
{
    if payload.len() > u32::MAX as usize {
        return Err(TransportError::Codec("payload too long for a frame".to_string()));
    }
    let mut out: Vec<u8> = Vec::new();
    push_tag(&mut out, channel);
    match channel {
        Channel::Input => {
            push_be_u64(&mut out, seq);
        },
        _ => {},
    }
    push_be_u32(&mut out, payload.len() as u32);
    push_all(&mut out, payload);
    assert(out@ =~= spec_tunnel_frame(channel, seq, payload@));
    Ok(out)
}

/// What the start of a tunnel stream holds.
pub enum TunnelParse {
    /// Less than a whole frame: more bytes are needed.
    Incomplete,
    /// No frame starts with these bytes.
    Invalid,
    /// A frame of a channel, and the bytes it took.
    Frame { channel: Channel, seq: u64, payload: Seq<u8>, consumed: nat },
}

/// The channel whose tag opens the stream, or `None`.
pub open spec fn spec_tagged(stream: Seq<u8>) -> Option<Channel> {
    if stream.len() >= 4 && stream.subrange(0, 4) == spec_tag(Channel::Control) {
        Some(Channel::Control)
    } else if stream.len() >= 5 && stream.subrange(0, 5) == spec_tag(Channel::Video) {
        Some(Channel::Video)
    } else if stream.len() >= 5 && stream.subrange(0, 5) == spec_tag(Channel::Input) {
        Some(Channel::Input)
    } else {
        None
    }
}

/// Bytes of a tunnel frame before its payload: tag, for an input event
/// the sequence number, and length.
pub open spec fn spec_tunnel_header(channel: Channel) -> nat {
    match channel {
        Channel::Video => 9,
        Channel::Input => 17,
        Channel::Control => 8,
    }
}

/// The first frame in a tunnel stream. A stream that opens with no tag is
/// invalid once it is long enough to tell; a frame that is cut short is
/// incomplete. The sequence number of a frame that carries none is 0.
pub open spec fn spec_parse_tunnel(stream: Seq<u8>) -> TunnelParse {
    match spec_tagged(stream) {
        None => if stream.len() < 5 {
            TunnelParse::Incomplete
        } else {
            TunnelParse::Invalid
        },
        Some(channel) => {
            let header = spec_tunnel_header(channel) as int;
            if stream.len() < header {
                TunnelParse::Incomplete
            } else {
                let len = u32_from_be(stream.subrange(header - 4, header));
                if stream.len() - header < len {
                    TunnelParse::Incomplete
                } else {
                    TunnelParse::Frame {
                        channel,
                        seq: match channel {
                            Channel::Input => u64_from_be(stream.subrange(5, 13)),
                            _ => 0,
                        },
                        payload: stream.subrange(header, header + len),
                        consumed: (header + len) as nat,
                    }
                }
            }
        },
    }
}

/// Reading a tunnel frame, with whatever follows it, gives its channel,
/// its payload and, for an input event, its sequence number back, and
/// takes exactly the frame from the stream.
pub proof fn lemma_parse_tunnel(channel: Channel, seq: u64, payload: Seq<u8>, rest: Seq<u8>)
    requires
        payload.len() <= u32::MAX,
    ensures
        spec_parse_tunnel(spec_tunnel_frame(channel, seq, payload) + rest) == (TunnelParse::Frame {
            channel,
            seq: if channel == Channel::Input {
                seq
            } else {
                0
            },
            payload,
            consumed: spec_tunnel_frame(channel, seq, payload).len(),
        }),
{
    let stream = spec_tunnel_frame(channel, seq, payload) + rest;
    let len = payload.len() as u32;
    lemma_be_u64_roundtrip(seq);
    lemma_be_u32_roundtrip(len);
    match channel {
        Channel::Control => {
            assert(stream.subrange(0, 4) =~= spec_tag(Channel::Control));
            assert(stream.subrange(4, 8) =~= be_u32(len));
            assert(stream.subrange(8, 8 + len) =~= payload);
        },
        Channel::Video => {
            assert(stream.subrange(0, 5) =~= spec_tag(Channel::Video));
            assert(stream.subrange(0, 4)[0] == 0x56u8);
            assert(spec_tag(Channel::Control)[0] == 0x43u8);
            assert(stream.subrange(5, 9) =~= be_u32(len));
            assert(stream.subrange(9, 9 + len) =~= payload);
        },
        Channel::Input => {
            assert(stream.subrange(0, 5) =~= spec_tag(Channel::Input));
            assert(stream.subrange(0, 4)[0] == 0x49u8);
            assert(spec_tag(Channel::Control)[0] == 0x43u8);
            assert(stream.subrange(0, 5)[0] == 0x49u8);
            assert(spec_tag(Channel::Video)[0] == 0x56u8);
            assert(stream.subrange(5, 13) =~= be_u64(seq));
            assert(stream.subrange(13, 17) =~= be_u32(len));
            assert(stream.subrange(17, 17 + len) =~= payload);
        },
    }
}

/// Whether the stream opens with the tag of a channel.
pub fn starts_with_tag(stream: &[u8], channel: Channel) -> (opens: bool)
    ensures
        opens <==> stream@.len() >= spec_tag(channel).len() && stream@.subrange(
            0,
            spec_tag(channel).len() as int,
        ) == spec_tag(channel),
{
    let opens = match channel {
        Channel::Video => stream.len() >= 5 && stream[0] == 0x56 && stream[1] == 0x49 && stream[2]
            == 0x44 && stream[3] == 0x45 && stream[4] == 0x4f,
        Channel::Input => stream.len() >= 5 && stream[0] == 0x49 && stream[1] == 0x4e && stream[2]
            == 0x50 && stream[3] == 0x55 && stream[4] == 0x54,
        Channel::Control => stream.len() >= 4 && stream[0] == 0x43 && stream[1] == 0x54
            && stream[2] == 0x52 && stream[3] == 0x4c,
    };
    proof {
        let n = spec_tag(channel).len() as int;
        if stream@.len() >= n {
            if opens {
                assert(stream@.subrange(0, n) =~= spec_tag(channel));
            } else {
                let head = stream@.subrange(0, n);
                assert(head[0] == stream@[0]);
                assert(head[1] == stream@[1]);
                assert(head[2] == stream@[2]);
                assert(head[3] == stream@[3]);
                if n == 5 {
                    assert(head[4] == stream@[4]);
                }
            }
        }
    }
    opens
}

/// A frame that was read from a tunnel stream: its channel, its sequence
/// number, its payload and the bytes it took.
pub struct TunnelFrame {
    /// The channel of the frame.
    pub channel: Channel,
    /// The sequence number of an input event; 0 on the other channels.
    pub seq: u64,
    /// The payload.
    pub payload: Vec<u8>,
    /// Bytes of the stream that the frame occupied.
    pub consumed: usize,
}

/// Reads the first frame of a tunnel stream. `Ok(None)` while the stream
/// holds less than a whole frame; an invalid packet where no frame starts
/// with these bytes.
pub fn parse_tunnel_frame(stream: &[u8]) -> (parsed: Result<Option<TunnelFrame>, TransportError>)
    ensures
        match spec_parse_tunnel(stream@) {
            TunnelParse::Incomplete => parsed is Ok && parsed->Ok_0 is None,
            TunnelParse::Invalid => parsed is Err && parsed->Err_0 is InvalidPacket,
            TunnelParse::Frame { channel, seq, payload, consumed } => parsed is Ok
                && parsed->Ok_0 is Some && {
                let frame = parsed->Ok_0->Some_0;
                &&& frame.channel == channel
                &&& frame.seq == seq
                &&& frame.payload@ == payload
                &&& frame.consumed == consumed
            },
        },
{
    let channel = if starts_with_tag(stream, Channel::Control) {
        Channel::Control
    } else if starts_with_tag(stream, Channel::Video) {
        Channel::Video
    } else if starts_with_tag(stream, Channel::Input) {
        Channel::Input
    } else if stream.len() < 5 {
        return Ok(None);
    } else {
        return Err(TransportError::InvalidPacket);
    };
    let header: usize = match channel {
        Channel::Video => 9,
        Channel::Input => 17,
        Channel::Control => 8,
    };
    if stream.len() < header {
        return Ok(None);
    }
    let len = get_u32(stream, header - 4) as usize;
    if stream.len() - header < len {
        return Ok(None);
    }
    let seq = match channel {
        Channel::Input => get_u64(stream, 5),
        _ => 0,
    };
    let payload = slice_to_vec(slice_subrange(stream, header, header + len));
    Ok(Some(TunnelFrame { channel, seq, payload, consumed: header + len }))
}

} // verus!
