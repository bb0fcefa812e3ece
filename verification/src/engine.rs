//! The duplex audio engine: what the audio callbacks do with a block.
//!
//! The input callback turns each captured block into one block for playback
//! and hands it to two queues, one for the output device and one for the
//! monitor device. Each output callback draws its block from its queue. None
//! of them fails: a block that cannot be converted is played as silence, and
//! so is a block that the queue cannot supply. The conversion itself touches
//! neither the controls nor the queues, so that the output callbacks never
//! wait for it.

use crate::errors::BeatriceError;
use crate::ring::drained_block;
use crate::ring::drained_rest;
use crate::ring::keep_newest;
use crate::ring::AudioRing;
use crate::ring::RING_CAPACITY;
use crate::sample::apply_to_block;
use crate::sample::is_applied;
use crate::sample::silence;
use crate::sample::silence_block;
use crate::sample::Sample;
use crate::session::SessionAction;
use crate::session::SessionControl;
use crate::session::SessionEvent;
use crate::session::SessionState;
use crate::session::StartDecision;
use vstd::prelude::*;

verus! {

/// Milliseconds between two readings of the input level meter.
pub const METER_PERIOD_MS: u64 = 50;

/// Bit pattern of the gain that leaves a sample as it is.
pub const UNIT_GAIN: Sample = 0x3F80_0000;

/// The block that the input callback plays for a captured block of `n`
/// samples: what the conversion gave, where the input was above the
/// threshold and the conversion succeeded; silence of the captured length
/// otherwise.
pub open spec fn settled_block(
    loud_enough: bool,
    outcome: Option<Result<Vec<Sample>, BeatriceError>>,
    n: nat,
) -> Seq<Sample> {
    if loud_enough && outcome is Some && outcome->0 is Ok {
        outcome->0->Ok_0@
    } else {
        silence(n)
    }
}

/// Whether `outcome` is what became of the conversion of a captured block:
/// what `convert` returned for the block, where the input was above the
/// threshold and a model is active; nothing otherwise, as the conversion is
/// not run then.
pub open spec fn is_outcome<F: FnOnce(&Vec<Sample>) -> Result<Vec<Sample>, BeatriceError>>(
    convert: F,
    loud_enough: bool,
    model_loaded: bool,
    input: Vec<Sample>,
    outcome: Option<Result<Vec<Sample>, BeatriceError>>,
) -> bool {
    if loud_enough && model_loaded {
        outcome is Some && call_ensures(convert, (&input,), outcome->0)
    } else {
        outcome is None
    }
}

/// A captured block after the first step of the input callback.
pub struct Captured {
    /// The block with the input gain applied.
    pub input: Vec<Sample>,
    /// Whether the block's level is above the threshold.
    pub loud_enough: bool,
}

/// Whether `captured` and `mic_level` are what the first step of the input
/// callback makes of a captured block: `gain` applies the input gain to
/// every sample, `level` measures the block, `above` compares the level with
/// the threshold.
pub open spec fn is_measured<
    G: Fn(Sample, Sample) -> Sample,
    L: Fn(&Vec<Sample>) -> Sample,
    A: Fn(Sample, Sample) -> bool,
>(
    gain: G,
    level: L,
    above: A,
    controls: Controls,
    data: Seq<Sample>,
    captured: Captured,
    mic_level: Sample,
) -> bool {
    &&& is_applied(gain, data, controls.input_gain, captured.input@)
    &&& call_ensures(level, (&captured.input,), mic_level)
    &&& call_ensures(above, (mic_level, controls.input_threshold), captured.loud_enough)
}

/// Whether the input callback has to run the conversion: only for input above
/// the threshold and with an active model.
pub fn needs_conversion(loud_enough: bool, model_loaded: bool) -> (b: bool)
    ensures
        b == (loud_enough && model_loaded),
{
    loud_enough && model_loaded
}

/// Decides what the input callback plays for a captured block of `n`
/// samples. `outcome` is what the conversion returned, `None` where no model
/// is active or the conversion was not run.
pub fn settle_block(
    loud_enough: bool,
    outcome: Option<Result<Vec<Sample>, BeatriceError>>,
    n: usize,
) -> (block: Vec<Sample>)
    ensures
        block@ == settled_block(loud_enough, outcome, n as nat),
{
    if !loud_enough {
        return silence_block(n);
    }
    match outcome {
        Some(Ok(converted)) => converted,
        _ => silence_block(n),
    }
}

/// The settings that the controls of the engine hold, as bit patterns of
/// single-precision numbers.
#[derive(Debug, Clone, Copy, PartialEq, Eq, Structural)]
pub struct Controls {
    pub input_gain: Sample,
    pub output_gain: Sample,
    pub monitor_gain: Sample,
    pub input_threshold: Sample,
    pub mic_level: Sample,
    /// Whether the level meter is already being read.
    pub meter_running: bool,
}

impl Controls {
    /// The controls of a new engine: every gain, the threshold and the level
    /// at one.
    pub fn new() -> (c: Controls)
        ensures
            c == (Controls {
                input_gain: UNIT_GAIN,
                output_gain: UNIT_GAIN,
                monitor_gain: UNIT_GAIN,
                input_threshold: UNIT_GAIN,
                mic_level: UNIT_GAIN,
                meter_running: false,
            }),
    {
        Controls {
            input_gain: UNIT_GAIN,
            output_gain: UNIT_GAIN,
            monitor_gain: UNIT_GAIN,
            input_threshold: UNIT_GAIN,
            mic_level: UNIT_GAIN,
            meter_running: false,
        }
    }

    /// Claims the level meter. Only the first claim succeeds, so the meter is
    /// read by one poller however often a session is started.
    pub fn claim_meter(&mut self) -> (first: bool)
        ensures
            first == !old(self).meter_running,
            *final(self) == (Controls { meter_running: true, ..*old(self) }),
    {
        let first = !self.meter_running;
        self.meter_running = true;
        first
    }

    /// The first step of the input callback. The input gain is applied to
    /// the captured block, and the block's level is measured, kept for the
    /// meter and compared with the threshold. The arithmetic on samples is
    /// handed in: `gain` multiplies a sample by a gain, `level` measures a
    /// block, `above` tells whether a level exceeds a threshold.
    pub fn measure<
        G: Fn(Sample, Sample) -> Sample,
        L: Fn(&Vec<Sample>) -> Sample,
        A: Fn(Sample, Sample) -> bool,
    >(&mut self, data: &[Sample], gain: G, level: L, above: A) -> (captured: Captured)
        requires
            forall|s: Sample, g: Sample| call_requires(gain, (s, g)),
            forall|b: Vec<Sample>| call_requires(level, (&b,)),
            forall|l: Sample, t: Sample| call_requires(above, (l, t)),
        ensures
            is_measured(
                gain,
                level,
                above,
                *old(self),
                data@,
                captured,
                final(self).mic_level,
            ),
            captured.input@.len() == data@.len(),
            *final(self) == (Controls { mic_level: final(self).mic_level, ..*old(self) }),
    {
        let input = apply_to_block(data, self.input_gain, gain);
        let mic_level = level(&input);
        self.mic_level = mic_level;
        let loud_enough = above(mic_level, self.input_threshold);
        Captured { input, loud_enough }
    }
}

/// The second step of the input callback. Where the block's level is above
/// the threshold and a model is active, the block is converted with
/// `convert`. What is played is what the conversion gave; silence of the
/// block's length is played where the conversion was not run, and where it
/// failed.
pub fn convert_captured<F: FnOnce(&Vec<Sample>) -> Result<Vec<Sample>, BeatriceError>>(
    captured: &Captured,
    model_loaded: bool,
    convert: F,
) -> (block: Vec<Sample>)
    requires
        forall|b: Vec<Sample>| call_requires(convert, (&b,)),
    ensures
        exists|outcome: Option<Result<Vec<Sample>, BeatriceError>>| #[trigger]
            is_outcome(convert, captured.loud_enough, model_loaded, captured.input, outcome)
                && block@ == settled_block(captured.loud_enough, outcome, captured.input@.len()),
{
    let outcome = if needs_conversion(captured.loud_enough, model_loaded) {
        Some(convert(&captured.input))
    } else {
        None
    };
    proof {
        assert(is_outcome(convert, captured.loud_enough, model_loaded, captured.input, outcome));
    }
    settle_block(captured.loud_enough, outcome, captured.input.len())
}

/// The engine: the session control and the two queues that the callbacks of
/// the current session share.
pub struct DuplexAudioEngine {
    control: SessionControl,
    output: AudioRing,
    monitor: AudioRing,
}

impl DuplexAudioEngine {
    /// The session control.
    pub closed spec fn control(&self) -> SessionControl {
        self.control
    }

    /// The samples waiting for the output device.
    pub closed spec fn output_queue(&self) -> Seq<Sample> {
        self.output@
    }

    /// The samples waiting for the monitor device.
    pub closed spec fn monitor_queue(&self) -> Seq<Sample> {
        self.monitor@
    }

    /// Both queues have the capacity of a session's queue.
    pub closed spec fn wf(&self) -> bool {
        &&& self.output.spec_capacity() == RING_CAPACITY
        &&& self.monitor.spec_capacity() == RING_CAPACITY
        &&& self.output.wf()
        &&& self.monitor.wf()
    }

    /// An idle engine with empty queues.
    pub fn new() -> (e: DuplexAudioEngine)
        ensures
            e.wf(),
            e.control() == (SessionControl { state: SessionState::Idle, serial: 0 }),
            e.output_queue() == Seq::<Sample>::empty(),
            e.monitor_queue() == Seq::<Sample>::empty(),
    {
        DuplexAudioEngine {
            control: SessionControl::new(),
            output: AudioRing::for_session(),
            monitor: AudioRing::for_session(),
        }
    }

    /// The state of the current session.
    pub fn state(&self) -> (s: SessionState)
        ensures
            s == self.control().state,
    {
        self.control.state()
    }

    /// The serial number of the current session.
    pub fn current_session(&self) -> (s: u64)
        ensures
            s == self.control().serial,
    {
        self.control.current()
    }

    /// Starts a new session. A session that is under way is stopped first:
    /// the decision names it. The new session begins with fresh, empty
    /// queues.
    pub fn start(&mut self) -> (d: StartDecision)
        ensures
            final(self).wf(),
            (final(self).control(), d) == old(self).control().spec_request_start(),
            final(self).output_queue() == Seq::<Sample>::empty(),
            final(self).monitor_queue() == Seq::<Sample>::empty(),
    {
        let d = self.control.request_start();
        self.output = AudioRing::for_session();
        self.monitor = AudioRing::for_session();
        d
    }

    /// Takes an event that the host reports of `session` and says what the
    /// host has to do. The queues are left as they are.
    pub fn on_event(&mut self, session: u64, event: SessionEvent) -> (a: SessionAction)
        ensures
            old(self).wf() ==> final(self).wf(),
            (final(self).control(), a) == old(self).control().spec_on_event(session, event),
            final(self).output_queue() == old(self).output_queue(),
            final(self).monitor_queue() == old(self).monitor_queue(),
    {
        self.control.on_event(session, event)
    }

    /// The last step of the input callback: appends what is played to both
    /// queues. Where a queue is full, its oldest samples make room.
    pub fn input_block(&mut self, block: &[Sample])
        ensures
            old(self).wf() ==> final(self).wf(),
            final(self).control() == old(self).control(),
            old(self).wf() ==> final(self).output_queue() == keep_newest(
                old(self).output_queue() + block@,
                RING_CAPACITY as nat,
            ),
            old(self).wf() ==> final(self).monitor_queue() == keep_newest(
                old(self).monitor_queue() + block@,
                RING_CAPACITY as nat,
            ),
    {
        self.output.push(block);
        self.monitor.push(block);
    }

    /// The output callback: draws a block of exactly `n` samples for the
    /// output device, silence where the queue runs dry, and applies the
    /// output gain to it with `gain`.
    pub fn play_output<G: Fn(Sample, Sample) -> Sample>(
        &mut self,
        n: usize,
        output_gain: Sample,
        gain: G,
    ) -> (block: Vec<Sample>)
        requires
            forall|s: Sample, g: Sample| call_requires(gain, (s, g)),
        ensures
            old(self).wf() ==> final(self).wf(),
            final(self).control() == old(self).control(),
            is_applied(gain, drained_block(old(self).output_queue(), n as nat), output_gain, block@),
            final(self).output_queue() == drained_rest(old(self).output_queue(), n as nat),
            final(self).monitor_queue() == old(self).monitor_queue(),
    {
        let drawn = self.output_block(n);
        apply_to_block(drawn.as_slice(), output_gain, gain)
    }

    /// The monitor callback: draws a block of exactly `n` samples for the
    /// monitor device, silence where the queue runs dry, and applies the
    /// monitor gain to it with `gain`.
    pub fn play_monitor<G: Fn(Sample, Sample) -> Sample>(
        &mut self,
        n: usize,
        monitor_gain: Sample,
        gain: G,
    ) -> (block: Vec<Sample>)
        requires
            forall|s: Sample, g: Sample| call_requires(gain, (s, g)),
        ensures
            old(self).wf() ==> final(self).wf(),
            final(self).control() == old(self).control(),
            is_applied(
                gain,
                drained_block(old(self).monitor_queue(), n as nat),
                monitor_gain,
                block@,
            ),
            final(self).monitor_queue() == drained_rest(old(self).monitor_queue(), n as nat),
            final(self).output_queue() == old(self).output_queue(),
    {
        let drawn = self.monitor_block(n);
        apply_to_block(drawn.as_slice(), monitor_gain, gain)
    }

    /// Draws a block of exactly `n` samples for the output device, silence
    /// where the queue runs dry.
    pub fn output_block(&mut self, n: usize) -> (block: Vec<Sample>)
        ensures
            old(self).wf() ==> final(self).wf(),
            final(self).control() == old(self).control(),
            block@ == drained_block(old(self).output_queue(), n as nat),
            final(self).output_queue() == drained_rest(old(self).output_queue(), n as nat),
            final(self).monitor_queue() == old(self).monitor_queue(),
    {
        self.output.pop_or_silence(n)
    }

    /// Draws a block of exactly `n` samples for the monitor device, silence
    /// where the queue runs dry.
    pub fn monitor_block(&mut self, n: usize) -> (block: Vec<Sample>)
        ensures
            old(self).wf() ==> final(self).wf(),
            final(self).control() == old(self).control(),
            block@ == drained_block(old(self).monitor_queue(), n as nat),
            final(self).monitor_queue() == drained_rest(old(self).monitor_queue(), n as nat),
            final(self).output_queue() == old(self).output_queue(),
    {
        self.monitor.pop_or_silence(n)
    }
}

/// For input below the threshold, without a model or after a failed
/// conversion the input callback plays silence of the captured length.
pub proof fn lemma_unconverted_block_is_silence(
    loud_enough: bool,
    outcome: Option<Result<Vec<Sample>, BeatriceError>>,
    n: nat,
)
    requires
        !loud_enough || outcome is None || outcome->0 is Err,
    ensures
        settled_block(loud_enough, outcome, n) == silence(n),
        settled_block(loud_enough, outcome, n).len() == n,
{
}

} // verus!
