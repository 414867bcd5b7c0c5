//! The resampler adapter: which conversion is asked for next, and when the
//! active resampler is replaced.
//!
//! A resampler is bound to the source format that it was built for. The
//! adapter keeps track of that format and of the step that a frame has
//! reached. The caller owns the resampler itself: it performs each action
//! that the adapter asks for and reports what came of it.

use vstd::prelude::*;
use crate::error::Error;

verus! {

/// The format of decoded audio: sample format, channel layout and sample rate.
#[derive(Clone, Copy, Debug, PartialEq, Eq, Structural)]
pub struct FormatTriple {
    pub sample_format: i32,
    pub channel_layout: u64,
    pub rate: u32,
}

/// What came of one conversion.
#[derive(Clone, Copy, Debug, PartialEq, Eq, Structural)]
pub enum Conversion {
    /// The scratch frame was filled. The delay, where there is one, counts
    /// the samples that the resampler still holds.
    Done(Option<i64>),
    /// The frame's format is not the one that the resampler was built for.
    InputChanged,
    /// Any other failure.
    Failed,
}

/// What the caller reports to the adapter.
#[derive(Clone, Copy, Debug, PartialEq, Eq, Structural)]
pub enum Event {
    /// The decoder produced a frame of this format.
    Frame(FormatTriple),
    /// The active resampler ran on the frame.
    Ran(Conversion),
    /// A resampler was built for the frame's format and ran on the frame;
    /// `Failed` where it could not be built.
    Replaced(Conversion),
    /// The active resampler was flushed.
    Flushed(Conversion),
}

/// What the adapter asks of the caller.
#[derive(Clone, Copy, Debug, PartialEq, Eq, Structural)]
pub enum Action {
    /// Run the active resampler on the frame.
    Run,
    /// Build a resampler from this source format to the target, and run it
    /// on the frame.
    Replace(FormatTriple),
    /// Append the samples of the scratch frame to the output. Then flush
    /// the active resampler where `flush` is set, and go on to the next
    /// frame where it is not.
    Extract { flush: bool },
    /// Give up with this error.
    Fail(Error),
}

/// The step that the adapter has reached.
#[derive(Clone, Copy, Debug, PartialEq, Eq, Structural)]
pub enum Phase {
    /// Waiting for a frame.
    Idle,
    /// The active resampler runs on a frame of this format.
    Running(FormatTriple),
    /// A replacement is built for a frame of this format.
    Replacing(FormatTriple),
    /// The active resampler is flushed.
    Flushing,
    /// The adapter has given up.
    Failed(Error),
}

/// The single slot for the active resampler: the source format that it
/// was built for, the rate of the fixed target, and the step reached.
#[derive(Clone, Copy, Debug, PartialEq, Eq, Structural)]
pub struct Adapter {
    pub active: FormatTriple,
    pub target_rate: u32,
    pub phase: Phase,
}

/// An event that reports a conversion which filled the scratch frame.
pub open spec fn spec_is_conversion(event: Event) -> bool {
    match event {
        Event::Ran(Conversion::Done(_)) => true,
        Event::Replaced(Conversion::Done(_)) => true,
        Event::Flushed(Conversion::Done(_)) => true,
        _ => false,
    }
}

/// After a conversion the scratch frame is extracted, and the resampler
/// is flushed for as long as it reports a delay.
pub open spec fn spec_after_conversion(adapter: Adapter, delay: Option<i64>) -> (Adapter, Action) {
    if delay.is_some() {
        (Adapter { phase: Phase::Flushing, ..adapter }, Action::Extract { flush: true })
    } else {
        (Adapter { phase: Phase::Idle, ..adapter }, Action::Extract { flush: false })
    }
}

/// Giving up with an error.
pub open spec fn spec_give_up(adapter: Adapter, error: Error) -> (Adapter, Action) {
    (Adapter { phase: Phase::Failed(error), ..adapter }, Action::Fail(error))
}

/// The adapter's next state and the action that it asks for.
pub open spec fn spec_step(adapter: Adapter, event: Event) -> (Adapter, Action) {
    match adapter.phase {
        Phase::Failed(error) => (adapter, Action::Fail(error)),
        Phase::Idle => match event {
            Event::Frame(format) => (
                Adapter { phase: Phase::Running(format), ..adapter },
                Action::Run,
            ),
            _ => spec_give_up(adapter, Error::CodecError),
        },
        Phase::Running(format) => match event {
            Event::Ran(Conversion::Done(delay)) => spec_after_conversion(adapter, delay),
            Event::Ran(Conversion::InputChanged) => (
                Adapter { phase: Phase::Replacing(format), ..adapter },
                Action::Replace(format),
            ),
            _ => spec_give_up(adapter, Error::CodecError),
        },
        Phase::Replacing(format) => match event {
            Event::Replaced(Conversion::Done(delay)) => spec_after_conversion(
                Adapter { active: format, ..adapter },
                delay,
            ),
            Event::Replaced(_) => spec_give_up(adapter, Error::UnsupportedFormatTransition),
            _ => spec_give_up(adapter, Error::CodecError),
        },
        Phase::Flushing => match event {
            Event::Flushed(Conversion::Done(delay)) => spec_after_conversion(adapter, delay),
            _ => spec_give_up(adapter, Error::CodecError),
        },
    }
}

/// The adapter after a sequence of events.
pub open spec fn spec_run(adapter: Adapter, events: Seq<Event>) -> Adapter
    decreases events.len(),
{
    if events.len() == 0 {
        adapter
    } else {
        spec_run(spec_step(adapter, events[0]).0, events.drop_first())
    }
}

/// How often a sequence of events makes the adapter ask for an extraction.
pub open spec fn spec_extractions(adapter: Adapter, events: Seq<Event>) -> nat
    decreases events.len(),
{
    if events.len() == 0 {
        0
    } else {
        let (next, action) = spec_step(adapter, events[0]);
        let now: nat = if action is Extract {
            1
        } else {
            0
        };
        now + spec_extractions(next, events.drop_first())
    }
}

/// How many events of a sequence report a conversion that filled the
/// scratch frame.
pub open spec fn spec_conversions(events: Seq<Event>) -> nat
    decreases events.len(),
{
    if events.len() == 0 {
        0
    } else {
        let now: nat = if spec_is_conversion(events[0]) {
            1
        } else {
            0
        };
        now + spec_conversions(events.drop_first())
    }
}

impl Adapter {
    /// An adapter whose active resampler was built for `source`, with the
    /// target at `target_rate`, waiting for the first frame.
    pub fn new(source: FormatTriple, target_rate: u32) -> (adapter: Adapter)
        ensures
            adapter == (Adapter { active: source, target_rate, phase: Phase::Idle }),
    {
        Adapter { active: source, target_rate, phase: Phase::Idle }
    }

    /// The source format that the active resampler was built for.
    pub fn active(&self) -> (format: FormatTriple)
        ensures
            format == self.active,
    {
        self.active
    }

    /// The sample rate of the target.
    pub fn target_rate(&self) -> (rate: u32)
        ensures
            rate == self.target_rate,
    {
        self.target_rate
    }

    /// The step that the adapter has reached.
    pub fn phase(&self) -> (phase: Phase)
        ensures
            phase == self.phase,
    {
        self.phase
    }

    fn after_conversion(&mut self, delay: Option<i64>) -> (action: Action)
        ensures
            (*final(self), action) == spec_after_conversion(*old(self), delay),
    {
        if delay.is_some() {
            self.phase = Phase::Flushing;
            Action::Extract { flush: true }
        } else {
            self.phase = Phase::Idle;
            Action::Extract { flush: false }
        }
    }

    fn give_up(&mut self, error: Error) -> (action: Action)
        ensures
            (*final(self), action) == spec_give_up(*old(self), error),
    {
        self.phase = Phase::Failed(error);
        Action::Fail(error)
    }

    /// Takes what the caller reports and says what to do next.
    pub fn step(&mut self, event: Event) -> (action: Action)
        ensures
            (*final(self), action) == spec_step(*old(self), event),
    {
        match self.phase {
            Phase::Failed(error) => Action::Fail(error),
            Phase::Idle => match event {
                Event::Frame(format) => {
                    self.phase = Phase::Running(format);
                    Action::Run
                },
                _ => self.give_up(Error::CodecError),
            },
            Phase::Running(format) => match event {
                Event::Ran(Conversion::Done(delay)) => self.after_conversion(delay),
                Event::Ran(Conversion::InputChanged) => {
                    self.phase = Phase::Replacing(format);
                    Action::Replace(format)
                },
                _ => self.give_up(Error::CodecError),
            },
            Phase::Replacing(format) => match event {
                Event::Replaced(Conversion::Done(delay)) => {
                    self.active = format;
                    self.after_conversion(delay)
                },
                Event::Replaced(_) => self.give_up(Error::UnsupportedFormatTransition),
                _ => self.give_up(Error::CodecError),
            },
            Phase::Flushing => match event {
                Event::Flushed(Conversion::Done(delay)) => self.after_conversion(delay),
                _ => self.give_up(Error::CodecError),
            },
        }
    }
}

/// The target never changes, and the active resampler changes only where
/// a replacement converted its frame: it is then the one built for that
/// frame's format.
pub proof fn lemma_replaced_only_on_recovery(adapter: Adapter, event: Event)
    ensures
        spec_step(adapter, event).0.target_rate == adapter.target_rate,
        spec_step(adapter, event).0.active != adapter.active ==> adapter.phase is Replacing
            && event is Replaced && spec_is_conversion(event) && spec_step(adapter, event).0.active
            == adapter.phase->Replacing_0,
{
}

/// A frame whose format the active resampler was not built for is not
/// lost: once the replacement has converted it, the replacement is the
/// active resampler, the frame is extracted once, and flushing goes on as
/// after any conversion.
pub proof fn lemma_format_change_recovery(adapter: Adapter, format: FormatTriple, delay: Option<i64>)
    requires
        adapter.phase is Idle,
    ensures
        ({
            let (a1, act1) = spec_step(adapter, Event::Frame(format));
            let (a2, act2) = spec_step(a1, Event::Ran(Conversion::InputChanged));
            let (a3, act3) = spec_step(a2, Event::Replaced(Conversion::Done(delay)));
            &&& act1 == Action::Run
            &&& act2 == Action::Replace(format)
            &&& act3 == (Action::Extract { flush: delay.is_some() })
            &&& a3.active == format
            &&& a3.target_rate == adapter.target_rate
            &&& a3.phase is Flushing == delay.is_some()
            &&& a3.phase is Idle == delay.is_none()
        }),
{
}

/// An adapter that has given up stays so.
pub proof fn lemma_failure_is_final(adapter: Adapter, events: Seq<Event>)
    requires
        adapter.phase is Failed,
    ensures
        spec_run(adapter, events) == adapter,
        spec_extractions(adapter, events) == 0,
    decreases events.len(),
{
    if events.len() > 0 {
        lemma_failure_is_final(adapter, events.drop_first());
    }
}

/// In a session that has not failed, the scratch frame is extracted once
/// for the run of each frame and once for each flush after it, and at no
/// other time.
pub proof fn lemma_one_extraction_per_conversion(adapter: Adapter, events: Seq<Event>)
    requires
        !(spec_run(adapter, events).phase is Failed),
    ensures
        spec_extractions(adapter, events) == spec_conversions(events),
    decreases events.len(),
{
    if events.len() > 0 {
        let (next, action) = spec_step(adapter, events[0]);
        if next.phase is Failed {
            lemma_failure_is_final(next, events.drop_first());
        } else {
            lemma_one_extraction_per_conversion(next, events.drop_first());
        }
    }
}

/// Flushing ends only when the resampler reports no delay: while it
/// reports one, the next action extracts and flushes again.
pub proof fn lemma_flush_until_no_delay(adapter: Adapter, delay: Option<i64>)
    requires
        adapter.phase is Flushing,
    ensures
        spec_step(adapter, Event::Flushed(Conversion::Done(delay))).1 == (Action::Extract {
            flush: delay.is_some(),
        }),
        spec_step(adapter, Event::Flushed(Conversion::Done(delay))).0.phase is Flushing
            == delay.is_some(),
        spec_step(adapter, Event::Flushed(Conversion::Done(delay))).0.phase is Idle
            == delay.is_none(),
{
}

} // verus!
