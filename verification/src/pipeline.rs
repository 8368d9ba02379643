//! The pipeline assembler: which capture backend is paired with which
//! encoder, and what one turn of the streaming loop does with a frame.

use crate::capture::spec_candidate;
use crate::capture::BackendKind;
use crate::capture::CaptureError;
use crate::capture::FrameRef;
use crate::encoder::Encoder;
use crate::encoder::EncoderBackend;
use crate::encoder::EncoderConfig;
use crate::quality::adaptive_controller::AdaptiveBitrateController;
use crate::quality::QualitySettings;
use crate::transport::protocol::NetworkStats;
use crate::transport::protocol::TransportMode;
use crate::transport::session::TransportSession;
use vstd::prelude::*;

verus! {

/// The encoder whose memory domain matches a capture backend, so that no
/// frame is copied on the way: GPU-native capture goes with the GPU-native
/// encoder, kernel-mode-set capture with the encoder that imports DMA-BUFs,
/// and the fallback capture with the software encoder.
pub open spec fn spec_paired_encoder(capture: BackendKind) -> EncoderBackend {
    match capture {
        BackendKind::NvFBC => EncoderBackend::NVENC,
        BackendKind::Kms => EncoderBackend::VAAPI,
        BackendKind::X11 => EncoderBackend::Software,
    }
}

/// The encoder whose memory domain matches a capture backend.
pub fn paired_encoder(capture: BackendKind) -> (encoder: EncoderBackend)
    ensures
        encoder == spec_paired_encoder(capture),
{
    match capture {
        BackendKind::NvFBC => EncoderBackend::NVENC,
        BackendKind::Kms => EncoderBackend::VAAPI,
        BackendKind::X11 => EncoderBackend::Software,
    }
}

/// What the probe found of one candidate of the selection order.
#[derive(Debug, Clone, Copy, PartialEq, Eq, Structural)]
pub struct PathProbe {
    /// Whether the capture backend could be created and initialised.
    pub capture_ready: bool,
    /// Whether the encoder paired with it could be created.
    pub encoder_ready: bool,
}

/// The backends that a session runs on.
#[derive(Debug, Clone, Copy, PartialEq, Eq, Structural)]
pub struct PipelinePlan {
    /// The capture backend.
    pub capture: BackendKind,
    /// The encoder.
    pub encoder: EncoderBackend,
    /// The transport.
    pub transport: TransportMode,
}

/// The first candidate from `from` on whose capture backend and encoder
/// both came up, or `None`.
pub open spec fn spec_first_path(probes: Seq<PathProbe>, from: int) -> Option<BackendKind>
    decreases 3 - from,
{
    if from < 0 || from >= 3 || from >= probes.len() {
        None
    } else if probes[from].capture_ready && probes[from].encoder_ready {
        spec_candidate(from)
    } else {
        spec_first_path(probes, from + 1)
    }
}

/// Chooses the backends of a session. `probes[i]` is what was found of
/// candidate `i` of the selection order; a candidate of which a part failed
/// is passed over for the next. The transport is the one that is
/// configured. Where no candidate came up whole, initialisation has failed.
pub fn assemble(probes: &[PathProbe], transport: TransportMode) -> (plan: Result<
    PipelinePlan,
    CaptureError,
>)
    ensures
        match spec_first_path(probes@, 0) {
            Some(capture) => plan == Ok::<PipelinePlan, CaptureError>(
                PipelinePlan { capture, encoder: spec_paired_encoder(capture), transport },
            ),
            None => plan is Err && plan->Err_0 is InitFailed,
        },
{
    let mut i: usize = 0;
    while i < 3 && i < probes.len()
        invariant
            i <= 3,
            spec_first_path(probes@, 0) == spec_first_path(probes@, i as int),
        decreases 3 - i,
    {
        if probes[i].capture_ready && probes[i].encoder_ready {
            let capture = crate::capture::next_candidate(i).unwrap();
            return Ok(PipelinePlan { capture, encoder: paired_encoder(capture), transport });
        }
        i += 1;
    }
    Err(CaptureError::InitFailed("没有可用的捕获后端".to_string()))
}

/// The frame rate that the encoder is given for a setting: within 15 and
/// 144.
pub open spec fn spec_encoder_fps(fps: u32) -> u32 {
    if fps < 15 {
        15
    } else if fps > 144 {
        144
    } else {
        fps
    }
}

/// Counters of one streaming session.
#[derive(Debug, Clone, Copy, PartialEq, Eq, Structural)]
pub struct StreamingLoop {
    /// Frames that were handed to the transport.
    pub frames_sent: u64,
    /// Frames that were dropped because capture or encoding failed.
    pub frames_dropped: u64,
    /// Whether the session was cancelled.
    pub cancelled: bool,
}

/// What one turn of the loop did.
#[derive(Debug)]
pub enum Turn {
    /// The bytes to send on the video channel.
    Send(Vec<u8>),
    /// The frame was dropped; the loop goes on.
    Dropped,
    /// The session is cancelled; the loop ends.
    Stop,
}

/// A count raised by one, staying at the largest number.
pub open spec fn spec_next(count: u64) -> u64 {
    if count < u64::MAX {
        (count + 1) as u64
    } else {
        count
    }
}

/// What one turn of the loop comes to.
pub enum TurnOutcome {
    /// The session is cancelled.
    Stop,
    /// There is no frame to encode.
    CaptureFailed,
    /// The encoder refused the frame.
    EncodeFailed,
    /// The frame was encoded but did not leave; the transport is left as
    /// given.
    NotSent { transport: crate::transport::session::SessionView },
    /// The frame leaves as these bytes; the transport is left as given.
    Sent { bytes: Seq<u8>, transport: crate::transport::session::SessionView },
}

/// What one turn of the loop comes to, from where the loop, the encoder and
/// the transport stand and from what was captured.
pub open spec fn spec_turn(
    counters: StreamingLoop,
    captured: Result<FrameRef, CaptureError>,
    encoder: Encoder,
    transport: crate::transport::session::SessionView,
) -> TurnOutcome {
    if counters.cancelled {
        TurnOutcome::Stop
    } else if captured is Err {
        TurnOutcome::CaptureFailed
    } else {
        let frame = captured->Ok_0@;
        match encoder.spec_payload(frame) {
            None => TurnOutcome::EncodeFailed,
            Some(payload) => {
                let emitted = encoder.stream().spec_emit(encoder.spec_config(), frame, payload);
                let (after, step) = transport.video_step(emitted);
                match step {
                    crate::transport::session::VideoStep::Leaves(bytes) => TurnOutcome::Sent {
                        bytes,
                        transport: after,
                    },
                    _ => TurnOutcome::NotSent { transport: after },
                }
            },
        }
    }
}

impl StreamingLoop {
    /// The counters after a frame was dropped.
    pub open spec fn dropped(self) -> StreamingLoop {
        StreamingLoop { frames_dropped: spec_next(self.frames_dropped), ..self }
    }

    /// The counters after a frame was sent.
    pub open spec fn sent(self) -> StreamingLoop {
        StreamingLoop { frames_sent: spec_next(self.frames_sent), ..self }
    }

    /// A loop that has done nothing.
    pub fn new() -> (counters: Self)
        ensures
            counters == (StreamingLoop { frames_sent: 0, frames_dropped: 0, cancelled: false }),
    {
        StreamingLoop { frames_sent: 0, frames_dropped: 0, cancelled: false }
    }

    /// Cancels the session.
    pub fn cancel(&mut self)
        ensures
            *final(self) == (StreamingLoop { cancelled: true, ..*old(self) }),
    {
        self.cancelled = true;
    }

    /// One turn of the loop: the captured frame is encoded and prepared
    /// for the video channel. A capture that failed costs the encoder no
    /// sequence number. A frame that cannot be encoded or prepared is
    /// dropped and counted, and the loop goes on. On a cancelled session
    /// nothing is encoded.
    pub fn turn(
        &mut self,
        captured: Result<FrameRef, CaptureError>,
        encoder: &mut Encoder,
        transport: &mut TransportSession,
    ) -> (done: Turn)
        requires
            old(encoder).wf(),
        ensures
            final(encoder).wf(),
            final(encoder).backend() == old(encoder).backend(),
            final(encoder).spec_config() == old(encoder).spec_config(),
            match spec_turn(*old(self), captured, *old(encoder), old(transport)@) {
                TurnOutcome::Stop => done is Stop && *final(self) == *old(self) && final(encoder).stream() == old(encoder).stream() && final(transport)@ == old(transport)@,
                TurnOutcome::CaptureFailed => done is Dropped && *final(self) == old(self).dropped() && final(encoder).stream() == old(encoder).stream() && final(transport)@ == old(transport)@,
                TurnOutcome::EncodeFailed => done is Dropped && *final(self) == old(self).dropped() && final(encoder).stream() == old(encoder).stream() && final(transport)@ == old(transport)@,
                TurnOutcome::NotSent { transport: after } => done is Dropped && *final(self)
                    == old(self).dropped() && final(encoder).stream() == old(encoder).stream().advanced(old(encoder).spec_config().gop_length) && final(transport)@
                    == after,
                TurnOutcome::Sent { bytes, transport: after } => (done matches Turn::Send(wire)
                    && wire@ == bytes) && *final(self) == old(self).sent() && final(encoder).stream() == old(encoder).stream().advanced(
                    old(encoder).spec_config().gop_length,
                ) && final(transport)@ == after,
            },
    {
        if self.cancelled {
            return Turn::Stop;
        }
        let frame = match captured {
            Err(_) => {
                self.frames_dropped = if self.frames_dropped < u64::MAX {
                    self.frames_dropped + 1
                } else {
                    self.frames_dropped
                };
                return Turn::Dropped;
            },
            Ok(frame) => frame,
        };
        let encoded = match encoder.encode(&frame) {
            Err(_) => {
                self.frames_dropped = if self.frames_dropped < u64::MAX {
                    self.frames_dropped + 1
                } else {
                    self.frames_dropped
                };
                return Turn::Dropped;
            },
            Ok(encoded) => encoded,
        };
        match transport.send_video(&encoded) {
            Ok(Some(bytes)) => {
                self.frames_sent = if self.frames_sent < u64::MAX {
                    self.frames_sent + 1
                } else {
                    self.frames_sent
                };
                Turn::Send(bytes)
            },
            _ => {
                self.frames_dropped = if self.frames_dropped < u64::MAX {
                    self.frames_dropped + 1
                } else {
                    self.frames_dropped
                };
                Turn::Dropped
            },
        }
    }
}

/// Feeds the statistics of the transport to the quality controller at
/// `now_ms` and, where the controller adjusts the quality, sets the new
/// bitrate and frame rate in the running encoder. Returns the settings
/// that were applied.
pub fn feed_controller(
    controller: &mut AdaptiveBitrateController,
    stats: NetworkStats,
    now_ms: u64,
    encoder: &mut Encoder,
) -> (applied: Option<QualitySettings>)
    requires
        old(controller)@.wf(),
        old(encoder).wf(),
    ensures
        final(controller)@.wf(),
        final(encoder).wf(),
        final(controller)@ == old(controller)@.updated(stats, now_ms),
        applied is Some <==> old(controller)@.adjusts(stats, now_ms),
        applied is Some ==> applied->Some_0 == final(controller)@.settings,
        final(encoder).backend() == old(encoder).backend(),
        final(encoder).stream() == old(encoder).stream(),
        final(encoder).spec_config() == match applied {
            Some(settings) => EncoderConfig {
                bitrate: settings.bitrate,
                fps: crate::encoder::spec_framerate(settings.fps),
                ..old(encoder).spec_config()
            },
            None => old(encoder).spec_config(),
        },
{
    let applied = controller.update_stats(stats, now_ms);
    match applied {
        Some(settings) => {
            encoder.set_bitrate(settings.bitrate);
            encoder.set_framerate(settings.fps);
        },
        None => {},
    }
    applied
}

} // verus!
