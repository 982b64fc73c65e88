//! Sampler pipeline: the trigger-and-capture state machine and the waveform
//! buffers it fills.
//!
//! The sampler decides; an outer loop performs. Each acquisition cycle, the
//! outer loop snapshots the write cursor, refills the active waveform's ring
//! buffer from its byte source, and asks the sampler what the refill
//! contains: nothing of interest, a complete capture, or a capture that
//! needs one more refill to hold a full record. Waveforms circulate through
//! a bucket brigade of channels owned by the outer loop: the sampler never
//! blocks on allocation, and under back-pressure it drops captures instead
//! of stalling acquisition.

use vstd::prelude::*;

use crate::capture::{ring_read_samples, ring_write, RingBuffer, RingCursor};
use crate::params::DeviceParameters;
use crate::trigger::{scan_view, EdgeFilter, State, Trigger, TriggerView};
use crate::Error;

verus! {

/// How many samples one emitted capture holds.
pub const SAMPLE_COUNT: usize = 128000;

/// Default trigger hysteresis, in LSB.
pub const TRIGGER_HYSTERESIS: u8 = 2;

#[derive(Debug, Clone, Copy, PartialEq, Eq, Structural)]
pub struct TriggerParameters {
    /// The channel the trigger watches.
    pub channel: usize,
    /// The trigger level, as an ADC code.
    pub level: i8,
    /// Which edge directions fire the trigger.
    pub edge: EdgeFilter,
}

#[derive(Debug, Clone, Copy, PartialEq, Eq, Structural)]
pub enum OperationMode {
    /// Acquire nothing.
    Idle,
    /// Emit a capture on every cycle, untriggered.
    FreeRunning,
    /// Emit one triggered capture, then fall back to `Idle`.
    SingleTrigger(TriggerParameters),
    /// Emit a capture at every trigger.
    RepeatTrigger(TriggerParameters),
}

#[derive(Debug, Clone, Copy)]
pub struct Parameters {
    pub device: DeviceParameters,
    pub mode: OperationMode,
}

impl Default for Parameters {
    fn default() -> (r: Self)
        ensures
            r.device == DeviceParameters::default_spec(),
            r.mode == OperationMode::Idle,
    {
        Parameters { device: DeviceParameters::default(), mode: OperationMode::Idle }
    }
}

/// A capture buffer: a parameter snapshot, a ring buffer of samples, and the
/// capture the sampler produced in it, as a cursor and a length.
pub struct Waveform {
    params: Parameters,
    buffer: RingBuffer,
    capture: Option<(RingCursor, usize)>,
}

impl Waveform {
    pub closed spec fn spec_params(self) -> Parameters {
        self.params
    }

    pub closed spec fn spec_buffer(self) -> Seq<u8> {
        self.buffer@
    }

    pub closed spec fn spec_cursor(self) -> RingCursor {
        self.buffer.spec_cursor()
    }

    pub closed spec fn spec_capture(self) -> Option<(RingCursor, usize)> {
        self.capture
    }

    pub open spec fn wf(self) -> bool {
        &&& self.spec_cursor().wf()
        &&& self.spec_cursor().spec_bound() == self.spec_buffer().len()
        &&& match self.spec_capture() {
            Some((c, n)) => c.wf() && c.spec_bound() == self.spec_buffer().len() && n
                <= self.spec_buffer().len(),
            None => true,
        }
    }

    /// A fresh waveform over a zeroed ring of at least `size` bytes, with no
    /// capture and default parameters.
    pub fn new(size: usize) -> (r: Result<Waveform, Error>)
        ensures
            r matches Ok(w) ==> w.wf() && w.spec_buffer().len() >= size && w.spec_capture()
                is None,
            r is Err ==> r == Err::<Waveform, Error>(Error::Vmap),
    {
        let buffer = match RingBuffer::new(size) {
            Ok(buffer) => buffer,
            Err(_) => {
                return Err(Error::Vmap);
            },
        };
        Ok(Waveform { params: Parameters::default(), buffer, capture: None })
    }

    pub fn len(&self) -> (r: usize)
        ensures
            r == self.spec_buffer().len(),
    {
        self.buffer.len()
    }

    pub fn cursor(&self) -> (r: RingCursor)
        ensures
            r == self.spec_cursor(),
    {
        self.buffer.cursor()
    }

    pub fn params(&self) -> (r: Parameters)
        ensures
            r == self.spec_params(),
    {
        self.params
    }

    /// Append freshly read bytes at the write cursor, advancing it.
    pub fn fill(&mut self, data: &[u8])
        requires
            old(self).wf(),
            data@.len() <= old(self).spec_buffer().len(),
        ensures
            final(self).wf(),
            final(self).spec_buffer() == ring_write(
                old(self).spec_buffer(),
                old(self).spec_cursor().spec_index(),
                data@,
            ),
            final(self).spec_cursor().spec_index() == (old(self).spec_cursor().spec_index()
                + data@.len()) % old(self).spec_buffer().len() as int,
            final(self).spec_cursor().spec_bound() == old(self).spec_cursor().spec_bound(),
            final(self).spec_capture() == old(self).spec_capture(),
            final(self).spec_params() == old(self).spec_params(),
    {
        self.buffer.append(data);
    }

    /// The captured samples, if a capture was produced.
    pub fn capture_data(&self) -> (r: Option<Vec<i8>>)
        requires
            self.wf(),
        ensures
            match self.spec_capture() {
                Some((c, n)) => r matches Some(v) && v@ == ring_read_samples(
                    self.spec_buffer(),
                    c.spec_index(),
                    n as int,
                ),
                None => r is None,
            },
    {
        match &self.capture {
            Some((cursor, length)) => Some(self.buffer.read(*cursor, *length)),
            None => None,
        }
    }
}

/// What one scan over a refill produced.
#[derive(Debug, Clone, Copy, PartialEq, Eq, Structural)]
pub enum ScanOutcome {
    /// Nothing to capture: the mode is idle, no trigger is armed, or no edge
    /// was found.
    Nothing,
    /// A capture was placed in the waveform.
    Captured,
    /// A trigger fired, but fewer than [`SAMPLE_COUNT`] bytes follow the
    /// edge: the caller must fill `refill` more bytes and call
    /// `finish_capture`.
    NeedRefill { refill: usize },
}

/// The trigger-and-capture decision core: the current parameters, the armed
/// trigger if the mode needs one, and the capture start pending a second
/// refill.
pub struct Sampler {
    params: Parameters,
    trigger: Option<(Trigger, EdgeFilter)>,
    pending: Option<RingCursor>,
}

impl Sampler {
    pub closed spec fn spec_params(self) -> Parameters {
        self.params
    }

    pub closed spec fn spec_trigger(self) -> Option<(Trigger, EdgeFilter)> {
        self.trigger
    }

    pub closed spec fn spec_pending(self) -> Option<RingCursor> {
        self.pending
    }

    pub open spec fn wf(self) -> bool {
        match self.spec_trigger() {
            Some((t, _)) => t.wf(),
            None => true,
        }
    }

    pub fn new() -> (r: Sampler)
        ensures
            r.wf(),
            r.spec_params().mode == OperationMode::Idle,
            r.spec_trigger() is None,
            r.spec_pending() is None,
    {
        Sampler { params: Parameters::default(), trigger: None, pending: None }
    }

    pub fn params(&self) -> (r: Parameters)
        ensures
            r == self.spec_params(),
    {
        self.params
    }

    /// Switch capture parameters: triggered modes arm a fresh trigger at the
    /// requested level and edge, with the default hysteresis; the other
    /// modes drop the trigger.
    pub fn set_parameters(&mut self, params: Parameters)
        ensures
            final(self).wf(),
            final(self).spec_params() == params,
            final(self).spec_pending() == old(self).spec_pending(),
            match params.mode {
                OperationMode::Idle | OperationMode::FreeRunning => final(self).spec_trigger()
                    is None,
                OperationMode::SingleTrigger(tp) | OperationMode::RepeatTrigger(tp) => {
                    &&& final(self).spec_trigger() matches Some((t, edge))
                    &&& t@.state == State::Fresh
                    &&& t@.level == tp.level
                    &&& t@.below == crate::trigger::below_of(tp.level, TRIGGER_HYSTERESIS)
                    &&& t@.above == crate::trigger::above_of(tp.level, TRIGGER_HYSTERESIS)
                    &&& edge == tp.edge
                },
            },
    {
        self.params = params;
        self.trigger = match params.mode {
            OperationMode::Idle | OperationMode::FreeRunning => None,
            OperationMode::SingleTrigger(tp) | OperationMode::RepeatTrigger(tp) => Some(
                (Trigger::new(tp.level, TRIGGER_HYSTERESIS), tp.edge),
            ),
        };
    }

    /// Start an acquisition cycle in `wfm`: snapshot the parameters into it
    /// and clear any previous capture.
    pub fn begin_cycle(&self, wfm: &mut Waveform)
        requires
            old(wfm).wf(),
        ensures
            final(wfm).wf(),
            final(wfm).spec_params() == self.spec_params(),
            final(wfm).spec_capture() is None,
            final(wfm).spec_buffer() == old(wfm).spec_buffer(),
            final(wfm).spec_cursor() == old(wfm).spec_cursor(),
    {
        wfm.params = self.params;
        wfm.capture = None;
    }

    /// Scan the `available` bytes that the refill placed at `cursor` and
    /// decide the capture. Free running captures the whole refill head-on;
    /// triggered modes scan for an admitted edge and place the capture at the
    /// sample that fired it, asking for one more refill when fewer than
    /// [`SAMPLE_COUNT`] bytes follow the edge. The trigger keeps its advanced
    /// state when no edge fires, and is reset after a completed capture.
    pub fn scan_capture(&mut self, wfm: &mut Waveform, cursor: RingCursor, available: usize) -> (r:
        ScanOutcome)
        requires
            old(self).wf(),
            old(wfm).wf(),
            cursor.wf(),
            cursor.spec_bound() == old(wfm).spec_buffer().len(),
            available <= old(wfm).spec_buffer().len(),
            SAMPLE_COUNT <= old(wfm).spec_buffer().len(),
            old(self).spec_pending() is None,
        ensures
            final(self).wf(),
            final(wfm).wf(),
            final(self).spec_params() == old(self).spec_params(),
            final(wfm).spec_params() == old(wfm).spec_params(),
            final(wfm).spec_buffer() == old(wfm).spec_buffer(),
            final(wfm).spec_cursor() == old(wfm).spec_cursor(),
            match old(self).spec_params().mode {
                OperationMode::Idle => r == ScanOutcome::Nothing && final(wfm).spec_capture()
                    == old(wfm).spec_capture() && final(self).spec_trigger() == old(self).spec_trigger() && final(self).spec_pending() is None,
                OperationMode::FreeRunning => r == ScanOutcome::Captured && final(wfm).spec_capture() == Some((cursor, SAMPLE_COUNT)) && final(self).spec_trigger()
                    == old(self).spec_trigger() && final(self).spec_pending() is None,
                OperationMode::SingleTrigger(_) | OperationMode::RepeatTrigger(_) => match old(self).spec_trigger() {
                    None => r == ScanOutcome::Nothing && final(wfm).spec_capture() == old(wfm).spec_capture() && final(self).spec_trigger() is None && final(self).spec_pending() is None,
                    Some((t, filter)) => {
                        let samples = ring_read_samples(
                            old(wfm).spec_buffer(),
                            cursor.spec_index(),
                            available as int,
                        );
                        let (consumed, edge, state) = scan_view(t@, samples, filter);
                        let at_edge = (cursor.spec_index() + consumed) % old(wfm).spec_buffer().len() as int;
                        match edge {
                            None => {
                                &&& r == ScanOutcome::Nothing
                                &&& final(wfm).spec_capture() == old(wfm).spec_capture()
                                &&& (final(self).spec_trigger() matches Some((t2, f2)) && t2@
                                    == TriggerView { state, ..t@ } && f2 == filter)
                                &&& final(self).spec_pending() is None
                            },
                            Some(_) => {
                                &&& (final(self).spec_trigger() matches Some((t2, f2)) && f2
                                    == filter)
                                &&& if available - consumed >= SAMPLE_COUNT {
                                    &&& r == ScanOutcome::Captured
                                    &&& final(wfm).spec_capture() matches Some((c, n)) && c.spec_index()
                                        == at_edge && n == SAMPLE_COUNT
                                    &&& final(self).spec_pending() is None
                                    &&& (final(self).spec_trigger() matches Some((t2, _)) && t2@.state
                                        == State::Fresh)
                                } else {
                                    &&& r == (ScanOutcome::NeedRefill {
                                        refill: (SAMPLE_COUNT - (available - consumed)) as usize,
                                    })
                                    &&& final(wfm).spec_capture() == old(wfm).spec_capture()
                                    &&& final(self).spec_pending() matches Some(c) && c.wf()
                                        && c.spec_index() == at_edge && c.spec_bound() == old(
                                        wfm,
                                    ).spec_buffer().len()
                                }
                            },
                        }
                    },
                },
            },
    {
        match self.params.mode {
            OperationMode::Idle => ScanOutcome::Nothing,
            OperationMode::FreeRunning => {
                // accept the refill as the capture
                wfm.capture = Some((cursor, SAMPLE_COUNT));
                ScanOutcome::Captured
            },
            OperationMode::SingleTrigger(_) | OperationMode::RepeatTrigger(_) => {
                let (mut trigger, filter) = match &self.trigger {
                    None => {
                        return ScanOutcome::Nothing;
                    },
                    Some((t, f)) => (*t, *f),
                };
                // find the trigger point
                let data = wfm.buffer.read(cursor, available);
                let (consumed, edge) = trigger.find(data.as_slice(), filter);
                let at_edge = cursor.plus(consumed);
                match edge {
                    None => {
                        // remember how far the trigger advanced
                        self.trigger = Some((trigger, filter));
                        ScanOutcome::Nothing
                    },
                    Some(_) => {
                        if available - consumed >= SAMPLE_COUNT {
                            // enough samples follow the edge already
                            wfm.capture = Some((at_edge, SAMPLE_COUNT));
                            // reset the trigger to resynchronize its state
                            trigger.reset();
                            self.trigger = Some((trigger, filter));
                            ScanOutcome::Captured
                        } else {
                            // a second refill must top the capture up
                            self.trigger = Some((trigger, filter));
                            self.pending = Some(at_edge);
                            ScanOutcome::NeedRefill {
                                refill: SAMPLE_COUNT - (available - consumed),
                            }
                        }
                    },
                }
            },
        }
    }

    /// Place the capture pending from `scan_capture` once the caller has
    /// refilled enough bytes, and reset the trigger.
    pub fn finish_capture(&mut self, wfm: &mut Waveform)
        requires
            old(self).wf(),
            old(wfm).wf(),
            old(self).spec_pending() matches Some(c) && c.wf() && c.spec_bound() == old(
                wfm,
            ).spec_buffer().len(),
            SAMPLE_COUNT <= old(wfm).spec_buffer().len(),
        ensures
            final(self).wf(),
            final(wfm).wf(),
            final(wfm).spec_capture() == Some(
                (old(self).spec_pending()->Some_0, SAMPLE_COUNT),
            ),
            final(self).spec_pending() is None,
            final(self).spec_params() == old(self).spec_params(),
            final(wfm).spec_params() == old(wfm).spec_params(),
            final(wfm).spec_buffer() == old(wfm).spec_buffer(),
            final(wfm).spec_cursor() == old(wfm).spec_cursor(),
            old(self).spec_trigger() matches Some((_, f)) ==> (final(self).spec_trigger()
                matches Some((t2, f2)) && t2@.state == State::Fresh && f2 == f),
            old(self).spec_trigger() is None ==> final(self).spec_trigger() is None,
    {
        let at_edge = match &self.pending {
            Some(c) => *c,
            None => {
                proof {
                    assert(false);
                }
                RingCursor::new(1)
            },
        };
        wfm.capture = Some((at_edge, SAMPLE_COUNT));
        self.pending = None;
        // reset the trigger to resynchronize its state
        match &self.trigger {
            Some((t, f)) => {
                let mut t2 = *t;
                let f2 = *f;
                t2.reset();
                self.trigger = Some((t2, f2));
            },
            None => {},
        }
    }

    /// Decide what to do with a completed cycle: with a capture and a
    /// standby buffer at hand, the capture is submitted (and a single-shot
    /// mode falls back to idle, dropping its trigger); with a capture but no
    /// standby buffer, the capture is discarded, which is how back-pressure
    /// acts; with no capture, nothing happens.
    pub fn commit(&mut self, wfm: &mut Waveform, has_standby: bool) -> (submit: bool)
        requires
            old(self).wf(),
            old(wfm).wf(),
        ensures
            final(self).wf(),
            final(wfm).wf(),
            submit == (old(wfm).spec_capture() is Some && has_standby),
            final(wfm).spec_buffer() == old(wfm).spec_buffer(),
            final(wfm).spec_cursor() == old(wfm).spec_cursor(),
            final(wfm).spec_params() == old(wfm).spec_params(),
            submit ==> final(wfm).spec_capture() == old(wfm).spec_capture(),
            !submit ==> final(wfm).spec_capture() is None,
            if submit {
                match old(self).spec_params().mode {
                    OperationMode::SingleTrigger(_) => final(self).spec_params().mode
                        == OperationMode::Idle && final(self).spec_trigger() is None,
                    _ => final(self).spec_params() == old(self).spec_params() && final(self).spec_trigger() == old(self).spec_trigger(),
                }
            } else {
                final(self).spec_params() == old(self).spec_params() && final(self).spec_trigger()
                    == old(self).spec_trigger()
            },
            final(self).spec_pending() == old(self).spec_pending(),
    {
        if wfm.capture.is_some() {
            if has_standby {
                if let OperationMode::SingleTrigger(_) = self.params.mode {
                    // a single capture was requested: stop capturing
                    self.params.mode = OperationMode::Idle;
                    self.trigger = None;
                }
                true
            } else {
                // no standby buffer: drop the capture rather than stall
                wfm.capture = None;
                false
            }
        } else {
            false
        }
    }
}

} // verus!
