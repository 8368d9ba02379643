//! Input events on the host: the queue of events to inject, and a linear
//! prediction of the pointer from its last two positions.

use std::collections::VecDeque;
use vstd::prelude::*;

verus! {

/// A button of the pointer.
#[derive(Debug, Clone, Copy, PartialEq, Eq, Structural)]
pub enum MouseButton {
    Left,
    Middle,
    Right,
    /// A side button, by its number.
    Side(u8),
}

/// A key of the keyboard.
#[derive(Debug, Clone, Copy, PartialEq, Eq, Structural)]
pub enum KeyCode {
    A,
    B,
    C,
    D,
    E,
    F,
    G,
    H,
    I,
    J,
    K,
    L,
    M,
    N,
    O,
    P,
    Q,
    R,
    S,
    T,
    U,
    V,
    W,
    X,
    Y,
    Z,
    Num0,
    Num1,
    Num2,
    Num3,
    Num4,
    Num5,
    Num6,
    Num7,
    Num8,
    Num9,
    F1,
    F2,
    F3,
    F4,
    F5,
    F6,
    F7,
    F8,
    F9,
    F10,
    F11,
    F12,
    Escape,
    Tab,
    CapsLock,
    Shift,
    Control,
    Alt,
    Meta,
    Space,
    Enter,
    Backspace,
    ArrowUp,
    ArrowDown,
    ArrowLeft,
    ArrowRight,
    Insert,
    Delete,
    Home,
    End,
    PageUp,
    PageDown,
}

/// Which modifier keys are held.
#[derive(Debug, Clone, Copy, PartialEq, Eq, Structural)]
pub struct Modifiers {
    pub shift: bool,
    pub control: bool,
    pub alt: bool,
    pub meta: bool,
}

impl Default for Modifiers {
    fn default() -> (modifiers: Self)
        ensures
            modifiers == (Modifiers { shift: false, control: false, alt: false, meta: false }),
    {
        Modifiers { shift: false, control: false, alt: false, meta: false }
    }
}

/// An input event, with positions in pixels.
#[derive(Debug, Clone, Copy, PartialEq, Eq, Structural)]
pub enum InputEvent {
    /// The pointer moved.
    MouseMove { x: i32, y: i32 },
    /// A button went down.
    MouseDown { x: i32, y: i32, button: MouseButton },
    /// A button went up.
    MouseUp { x: i32, y: i32, button: MouseButton },
    /// The wheel turned.
    MouseWheel { x: i32, y: i32, delta: i32 },
    /// A key went down.
    KeyDown { key_code: KeyCode, modifiers: Modifiers },
    /// A key went up.
    KeyUp { key_code: KeyCode, modifiers: Modifiers },
}

/// The position of the pointer that the host reported for an event.
#[derive(Debug, Clone, Copy, PartialEq, Eq)]
pub struct Correction {
    /// Sequence number of the event.
    pub sequence: u64,
    /// Where the pointer was.
    pub actual_position: (i32, i32),
    /// Time of the report, in microseconds.
    pub correction_timestamp_us: u64,
}

/// An event that is expected to come.
#[derive(Debug, Clone, Copy, PartialEq, Eq)]
pub struct PredictedEvent {
    /// Sequence number given to the prediction.
    pub sequence: u64,
    /// Time that the prediction is for, in microseconds.
    pub predicted_timestamp_us: u64,
    /// The event.
    pub event: InputEvent,
    /// Where the pointer is expected to be.
    pub predicted_position: Option<(i32, i32)>,
}

/// An event as it was recorded.
#[derive(Debug, Clone, Copy, PartialEq, Eq, Structural)]
pub struct Recorded {
    /// Sequence number of the event.
    pub sequence: u64,
    /// The event.
    pub event: InputEvent,
    /// Time of the recording, in microseconds.
    pub timestamp_us: u64,
}

/// Pixels within which a prediction counts as right.
pub const TOLERANCE: i64 = 5;

/// The quotient with its fraction cut off.
pub open spec fn spec_truncated(a: int, b: int) -> int
    recommends
        b > 0,
{
    if a >= 0 {
        a / b
    } else {
        -((-a) / b)
    }
}

/// A number as a coordinate: the nearest coordinate where it fits none.
pub open spec fn spec_coordinate(value: int) -> i32 {
    if value > i32::MAX {
        i32::MAX
    } else if value < i32::MIN {
        i32::MIN
    } else {
        value as i32
    }
}

/// A coordinate moved on as far as it moved from `before` to `last` in
/// `elapsed_us`, for `ahead_us` more.
pub open spec fn spec_extrapolate(before: i32, last: i32, elapsed_us: u64, ahead_us: u64) -> i32
    recommends
        elapsed_us > 0,
{
    spec_coordinate(last + spec_truncated((last - before) * ahead_us, elapsed_us as int))
}

/// A coordinate moved on in a straight line.
pub fn extrapolate(before: i32, last: i32, elapsed_us: u64, ahead_us: u64) -> (next: i32)
    requires
        elapsed_us > 0,
    ensures
        next == spec_extrapolate(before, last, elapsed_us, ahead_us),
{
    let moved: i128 = last as i128 - before as i128;
    proof {
        if moved >= 0 {
            crate::arith::lemma_mul_le(
                moved as int,
                ahead_us as int,
                0x1_0000_0000,
                0x1_0000_0000_0000_0000,
            );
        } else {
            crate::arith::lemma_mul_le(
                -(moved as int),
                ahead_us as int,
                0x1_0000_0000,
                0x1_0000_0000_0000_0000,
            );
        }
        assert(0x1_0000_0000int * 0x1_0000_0000_0000_0000int < i128::MAX) by (nonlinear_arith);
    }
    let step: i128 = if moved >= 0 {
        (moved * ahead_us as i128) / elapsed_us as i128
    } else {
        let back: i128 = ((-moved) * ahead_us as i128) / elapsed_us as i128;
        assert((-moved) * ahead_us == -(moved * ahead_us)) by (nonlinear_arith);
        -back
    };
    proof {
        if moved >= 0 {
            crate::arith::lemma_div_bound(moved * ahead_us, elapsed_us as int);
        } else {
            crate::arith::lemma_div_bound((-moved) * ahead_us, elapsed_us as int);
        }
    }
    let target: i128 = last as i128 + step;
    if target > i32::MAX as i128 {
        i32::MAX
    } else if target < i32::MIN as i128 {
        i32::MIN
    } else {
        target as i32
    }
}

/// The first recorded event from `from` on with the given sequence number,
/// or `None`.
pub open spec fn spec_find(history: Seq<Recorded>, sequence: u64, from: int) -> Option<Recorded>
    decreases history.len() - from,
{
    if from < 0 || from >= history.len() {
        None
    } else if history[from].sequence == sequence {
        Some(history[from])
    } else {
        spec_find(history, sequence, from + 1)
    }
}

/// Whether a recorded pointer position was within the tolerance of where
/// the pointer was.
pub open spec fn spec_close(recorded: Option<Recorded>, actual: (i32, i32)) -> bool {
    recorded matches Some(entry) && (entry.event matches InputEvent::MouseMove { x, y } && -TOLERANCE
        <= x - actual.0 <= TOLERANCE && -TOLERANCE <= y - actual.1 <= TOLERANCE)
}

/// The history after an event was recorded: the event joins, and the
/// oldest events leave until no more than `capacity` are held.
pub open spec fn spec_record(history: Seq<Recorded>, entry: Recorded, capacity: usize) -> Seq<
    Recorded,
> {
    let all = history.push(entry);
    if all.len() > capacity {
        all.subrange(all.len() - capacity, all.len() as int)
    } else {
        all
    }
}

/// The prediction from a history for `ahead_us` microseconds after its last
/// event: with the last two events moves of the pointer, the second later
/// than the first, the pointer is expected to go on as it went.
pub open spec fn spec_predict(history: Seq<Recorded>, ahead_us: u64) -> Option<PredictedEvent> {
    if history.len() < 2 {
        None
    } else {
        let before = history[history.len() - 2];
        let last = history[history.len() - 1];
        match (before.event, last.event) {
            (InputEvent::MouseMove { x: x1, y: y1 }, InputEvent::MouseMove { x: x2, y: y2 }) => {
                if last.timestamp_us > before.timestamp_us {
                    let elapsed = (last.timestamp_us - before.timestamp_us) as u64;
                    let x = spec_extrapolate(x1, x2, elapsed, ahead_us);
                    let y = spec_extrapolate(y1, y2, elapsed, ahead_us);
                    Some(
                        PredictedEvent {
                            sequence: if history.len() + 1 > u64::MAX {
                                u64::MAX
                            } else {
                                (history.len() + 1) as u64
                            },
                            predicted_timestamp_us: if last.timestamp_us + ahead_us > u64::MAX {
                                u64::MAX
                            } else {
                                (last.timestamp_us + ahead_us) as u64
                            },
                            event: InputEvent::MouseMove { x, y },
                            predicted_position: Some((x, y)),
                        },
                    )
                } else {
                    None
                }
            },
            _ => None,
        }
    }
}

/// Predicts the pointer in a straight line.
#[derive(Debug)]
pub struct LinearPredictor {
    history: VecDeque<Recorded>,
    max_history: usize,
    correct_predictions: u64,
    total_predictions: u64,
}

/// A predictor as a mathematical value.
pub struct PredictorView {
    /// The most recent events, oldest first.
    pub history: Seq<Recorded>,
    /// Events that the history keeps.
    pub max_history: usize,
    /// Corrections that found the prediction right.
    pub correct_predictions: u64,
    /// Corrections in all.
    pub total_predictions: u64,
}

impl View for LinearPredictor {
    type V = PredictorView;

    closed spec fn view(&self) -> PredictorView {
        PredictorView {
            history: self.history@,
            max_history: self.max_history,
            correct_predictions: self.correct_predictions,
            total_predictions: self.total_predictions,
        }
    }
}

impl PredictorView {
    /// No more corrections were right than there were.
    pub open spec fn wf(self) -> bool {
        self.correct_predictions <= self.total_predictions
    }
}

impl LinearPredictor {
    /// A predictor that keeps the last `max_history` events.
    pub fn new(max_history: usize) -> (predictor: Self)
        ensures
            predictor@ == (PredictorView {
                history: Seq::<Recorded>::empty(),
                max_history,
                correct_predictions: 0,
                total_predictions: 0,
            }),
            predictor@.wf(),
    {
        LinearPredictor {
            history: VecDeque::new(),
            max_history,
            correct_predictions: 0,
            total_predictions: 0,
        }
    }

    /// Records an event at time `now_us`.
    pub fn add_event(&mut self, event: InputEvent, sequence: u64, now_us: u64)
        ensures
            final(self)@ == (PredictorView {
                history: spec_record(
                    old(self)@.history,
                    Recorded { sequence, event, timestamp_us: now_us },
                    old(self)@.max_history,
                ),
                ..old(self)@
            }),
    {
        self.history.push_back(Recorded { sequence, event, timestamp_us: now_us });
        let ghost all = self.history@;
        while self.history.len() > self.max_history
            invariant
                self.history@.len() <= all.len(),
                all.len() <= self.max_history ==> self.history@.len() == all.len(),
                all.len() > self.max_history ==> self.history@.len() >= self.max_history,
                self.history@ == all.subrange(all.len() - self.history@.len(), all.len() as int),
                self.max_history == old(self).max_history,
                self.correct_predictions == old(self).correct_predictions,
                self.total_predictions == old(self).total_predictions,
            decreases self.history@.len(),
        {
            let ghost before = self.history@;
            let _ = self.history.pop_front();
            assert(self.history@ =~= all.subrange(
                all.len() - self.history@.len(),
                all.len() as int,
            ));
        }
        assert(self.history@ =~= spec_record(
            old(self)@.history,
            Recorded { sequence, event, timestamp_us: now_us },
            old(self)@.max_history,
        ));
    }

    /// The event that is expected `ahead_us` microseconds after the last.
    pub fn predict(&self, ahead_us: u64) -> (predicted: Option<PredictedEvent>)
        ensures
            predicted == spec_predict(self@.history, ahead_us),
    {
        let n = self.history.len();
        if n < 2 {
            return None;
        }
        let before = self.history[n - 2];
        let last = self.history[n - 1];
        match (before.event, last.event) {
            (InputEvent::MouseMove { x: x1, y: y1 }, InputEvent::MouseMove { x: x2, y: y2 }) => {
                if last.timestamp_us > before.timestamp_us {
                    let elapsed = last.timestamp_us - before.timestamp_us;
                    let x = extrapolate(x1, x2, elapsed, ahead_us);
                    let y = extrapolate(y1, y2, elapsed, ahead_us);
                    Some(
                        PredictedEvent {
                            sequence: if n as u64 == u64::MAX {
                                u64::MAX
                            } else {
                                n as u64 + 1
                            },
                            predicted_timestamp_us: if ahead_us > u64::MAX - last.timestamp_us {
                                u64::MAX
                            } else {
                                last.timestamp_us + ahead_us
                            },
                            event: InputEvent::MouseMove { x, y },
                            predicted_position: Some((x, y)),
                        },
                    )
                } else {
                    None
                }
            },
            _ => None,
        }
    }

    /// Takes a correction: it is counted, and counted as right where the
    /// recorded position of its event was within the tolerance of where
    /// the pointer was.
    pub fn apply_correction(&mut self, correction: Correction)
        requires
            old(self)@.wf(),
        ensures
            final(self)@.wf(),
            final(self)@ == if old(self)@.total_predictions == u64::MAX {
                old(self)@
            } else {
                PredictorView {
                    total_predictions: (old(self)@.total_predictions + 1) as u64,
                    correct_predictions: if spec_close(
                        spec_find(old(self)@.history, correction.sequence, 0),
                        correction.actual_position,
                    ) {
                        (old(self)@.correct_predictions + 1) as u64
                    } else {
                        old(self)@.correct_predictions
                    },
                    ..old(self)@
                }
            },
    {
        if self.total_predictions == u64::MAX {
            return ;
        }
        self.total_predictions = self.total_predictions + 1;
        let mut i: usize = 0;
        while i < self.history.len()
            invariant
                i <= self.history@.len(),
                self.history@ == old(self)@.history,
                spec_find(self.history@, correction.sequence, 0) == spec_find(
                    self.history@,
                    correction.sequence,
                    i as int,
                ),
                self.max_history == old(self).max_history,
                self.correct_predictions == old(self).correct_predictions,
                self.total_predictions == old(self).total_predictions + 1,
                self.correct_predictions < self.total_predictions,
            decreases self.history@.len() - i,
        {
            let entry = self.history[i];
            if entry.sequence == correction.sequence {
                match entry.event {
                    InputEvent::MouseMove { x, y } => {
                        let dx: i64 = x as i64 - correction.actual_position.0 as i64;
                        let dy: i64 = y as i64 - correction.actual_position.1 as i64;
                        if -TOLERANCE <= dx && dx <= TOLERANCE && -TOLERANCE <= dy && dy
                            <= TOLERANCE {
                            self.correct_predictions = self.correct_predictions + 1;
                        }
                    },
                    _ => {},
                }
                return ;
            }
            i += 1;
        }
    }

    /// The share of corrections that found the prediction right, in
    /// thousandths; 0 before any correction.
    pub fn get_accuracy(&self) -> (permille: u32)
        requires
            self@.wf(),
        ensures
            permille == if self@.total_predictions == 0 {
                0
            } else {
                (self@.correct_predictions * 1000) / (self@.total_predictions as int)
            },
            permille <= 1000,
    {
        if self.total_predictions == 0 {
            return 0;
        }
        let share: u128 = self.correct_predictions as u128 * 1000 / self.total_predictions as u128;
        assert(share <= 1000) by (nonlinear_arith)
            requires
                share == (self.correct_predictions * 1000) / (self.total_predictions as int),
                self.correct_predictions <= self.total_predictions,
                self.total_predictions > 0,
        ;
        share as u32
    }
}

impl Default for LinearPredictor {
    fn default() -> (predictor: Self)
        ensures
            predictor@ == (PredictorView {
                history: Seq::<Recorded>::empty(),
                max_history: 10,
                correct_predictions: 0,
                total_predictions: 0,
            }),
    {
        LinearPredictor::new(10)
    }
}

/// Takes input events in and hands them out in the order they came.
#[derive(Debug)]
pub struct InputHandler {
    predictor: LinearPredictor,
    pending_events: VecDeque<InputEvent>,
}

impl InputHandler {
    /// The events that wait to be handed out, oldest first.
    pub closed spec fn pending(&self) -> Seq<InputEvent> {
        self.pending_events@
    }

    /// The predictor of the handler.
    pub closed spec fn predictor(&self) -> PredictorView {
        self.predictor@
    }

    /// A handler without events.
    pub fn new() -> (handler: Self)
        ensures
            handler.pending().len() == 0,
            handler.predictor().wf(),
            handler.predictor().history.len() == 0,
            handler.predictor().max_history == 10,
    {
        InputHandler { predictor: LinearPredictor::new(10), pending_events: VecDeque::new() }
    }

    /// Takes an event in at time `now_us`.
    pub fn handle_event(&mut self, event: InputEvent, sequence: u64, now_us: u64)
        ensures
            final(self).pending() == old(self).pending().push(event),
            final(self).predictor() == (PredictorView {
                history: spec_record(
                    old(self).predictor().history,
                    Recorded { sequence, event, timestamp_us: now_us },
                    old(self).predictor().max_history,
                ),
                ..old(self).predictor()
            }),
    {
        self.predictor.add_event(event, sequence, now_us);
        self.pending_events.push_back(event);
    }

    /// Hands out the oldest event that waits.
    pub fn poll_event(&mut self) -> (event: Option<InputEvent>)
        ensures
            final(self).predictor() == old(self).predictor(),
            if old(self).pending().len() == 0 {
                event is None && final(self).pending() == old(self).pending()
            } else {
                event == Some(old(self).pending()[0]) && final(self).pending() == old(self).pending().subrange(1, old(self).pending().len() as int)
            },
    {
        self.pending_events.pop_front()
    }

    /// The event that is expected `ahead_us` microseconds after the last.
    pub fn predict(&self, ahead_us: u64) -> (predicted: Option<PredictedEvent>)
        ensures
            predicted == spec_predict(self.predictor().history, ahead_us),
    {
        self.predictor.predict(ahead_us)
    }
}

impl Default for InputHandler {
    fn default() -> (handler: Self)
        ensures
            handler.pending().len() == 0,
    {
        InputHandler::new()
    }
}

/// A handler without events.
pub fn create_input_handler() -> (handler: InputHandler)
    ensures
        handler.pending().len() == 0,
{
    InputHandler::new()
}

} // verus!
