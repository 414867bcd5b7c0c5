//! The decode operation: what is fixed before the first packet is read, and
//! the order of reading, decoding, resampling and assembling after that.
//!
//! The caller owns the container, the decoder and the resampler. It
//! performs each action that the session asks for and reports what came of
//! it, until the session finishes or fails.

use vstd::prelude::*;
use crate::decoder::{build_threading_config, spec_threading_config, ThreadingConfig};
use crate::error::Error;
use crate::packets::{
    classify_packet,
    spec_classify,
    spec_reaches_end,
    PacketAction,
    PacketMeta,
};
use crate::resample::{
    spec_is_conversion,
    spec_step,
    Action,
    Adapter,
    Conversion,
    Event,
    FormatTriple,
    Phase,
};
use crate::seek::{seek_window, spec_seek_in_bounds, spec_seek_window, SeekWindow};
use crate::time::{end_timestamp, spec_end_timestamp, Span, TimeBase};

verus! {

/// What is settled before decoding starts.
#[derive(Clone, Copy, Debug, PartialEq, Eq, Structural)]
pub struct DecodePlan {
    /// The threading configuration of the decoder, if threads were asked for.
    pub threading: Option<ThreadingConfig>,
    /// The window to seek to, if a seek was asked for.
    pub seek: Option<SeekWindow>,
    /// The raw timestamp at which decoding ends, if there is a duration cap.
    pub end: Option<i64>,
}

/// The error of a plan that fails: that of the seek where the seek is out
/// of bounds, else that of the threading configuration.
pub open spec fn spec_plan_error(tb: TimeBase, duration_raw: int, seek_to: Option<Span>) -> Error {
    if seek_to.is_some() && !spec_seek_in_bounds(tb, duration_raw, seek_to.unwrap().spec_nanos()) {
        Error::SeekOutOfBounds
    } else {
        Error::IOError
    }
}

/// Settles the end bound, the seek window and the threading configuration
/// of a decode. Fails where a seek was asked for whose window does not end
/// before the stream does, and else where threads were asked for and the
/// count of execution units is not known.
pub fn plan_decode(
    tb: TimeBase,
    duration_raw: i64,
    duration: Option<Span>,
    seek_to: Option<Span>,
    threaded: bool,
    available: Option<usize>,
) -> (plan: Result<DecodePlan, Error>)
    requires
        tb.wf(),
    ensures
        plan.is_ok() == (spec_threading_config(threaded, available).is_ok() && (seek_to.is_some()
            ==> spec_seek_in_bounds(tb, duration_raw as int, seek_to.unwrap().spec_nanos()))),
        plan.is_ok() ==> Ok::<Option<ThreadingConfig>, Error>(plan.unwrap().threading)
            == spec_threading_config(threaded, available),
        plan.is_ok() ==> plan.unwrap().seek.is_some() == seek_to.is_some(),
        plan.is_ok() && seek_to.is_some() ==> (
            plan.unwrap().seek.unwrap().target as int,
            plan.unwrap().seek.unwrap().min as int,
            plan.unwrap().seek.unwrap().max as int,
        ) == spec_seek_window(tb, seek_to.unwrap().spec_nanos()),
        plan.is_ok() ==> plan.unwrap().end.is_some() == duration.is_some(),
        plan.is_ok() && duration.is_some() ==> Some(plan.unwrap().end.unwrap() as int)
            == spec_end_timestamp(tb, seek_to, duration),
        plan.is_err() ==> plan.unwrap_err() == spec_plan_error(
            tb,
            duration_raw as int,
            seek_to,
        ),
{
    let end = end_timestamp(tb, seek_to, duration);
    let seek = match seek_to {
        None => None,
        Some(target) => match seek_window(tb, duration_raw, target) {
            Ok(w) => Some(w),
            Err(e) => {
                return Err(e);
            },
        },
    };
    let threading = match build_threading_config(threaded, available) {
        Ok(t) => t,
        Err(e) => {
            return Err(e);
        },
    };
    Ok(DecodePlan { threading, seek, end })
}

/// How far a session has come.
#[derive(Clone, Copy, Debug, PartialEq, Eq, Structural)]
pub enum Stage {
    /// The next packet is read.
    Reading,
    /// A packet is submitted to the decoder.
    Sending,
    /// The decoder is asked for a frame.
    Draining,
    /// A frame is with the resampler adapter.
    Resampling,
    /// The packets have run out, or the end bound was reached.
    Finished,
    /// The session has failed.
    Failed(Error),
}

/// What the caller reports to the session.
#[derive(Clone, Copy, Debug, PartialEq, Eq, Structural)]
pub enum Report {
    /// The container gave this packet.
    Packet(PacketMeta),
    /// The container has no more packets.
    EndOfStream,
    /// The container could not be read.
    ReadFailed,
    /// The decoder took the packet, or refused it.
    Sent(bool),
    /// The decoder gave a frame of this format, or has none yet.
    Received(Option<FormatTriple>),
    /// The active resampler ran on the frame.
    Ran(Conversion),
    /// A replacement resampler was built and ran on the frame.
    Replaced(Conversion),
    /// The active resampler was flushed.
    Flushed(Conversion),
}

/// What the session asks of the caller.
#[derive(Clone, Copy, Debug, PartialEq, Eq, Structural)]
pub enum Order {
    /// Read the next packet of the container.
    ReadPacket,
    /// Submit the packet just read to the decoder.
    SendPacket,
    /// Ask the decoder for a frame.
    ReceiveFrame,
    /// Run the active resampler on the frame.
    Run,
    /// Build a resampler from this source format and run it on the frame.
    Replace(FormatTriple),
    /// Append the scratch frame's samples to the output, then flush the
    /// active resampler.
    ExtractThenFlush,
    /// Append the scratch frame's samples to the output, then ask the
    /// decoder for the next frame.
    ExtractThenReceive,
    /// Return the output.
    Finish,
    /// Discard the output and return this error.
    Fail(Error),
}

/// One decode in progress.
#[derive(Clone, Copy, Debug, PartialEq, Eq, Structural)]
pub struct Session {
    pub stream_idx: usize,
    pub end: Option<i64>,
    pub adapter: Adapter,
    pub stage: Stage,
}

/// The adapter's event that a report stands for, if it is one for the adapter.
pub open spec fn spec_adapter_event(report: Report) -> Option<Event> {
    match report {
        Report::Ran(c) => Some(Event::Ran(c)),
        Report::Replaced(c) => Some(Event::Replaced(c)),
        Report::Flushed(c) => Some(Event::Flushed(c)),
        _ => None,
    }
}

/// The session's order for an action of the adapter.
pub open spec fn spec_order_of(action: Action) -> Order {
    match action {
        Action::Run => Order::Run,
        Action::Replace(format) => Order::Replace(format),
        Action::Extract { flush } => if flush {
            Order::ExtractThenFlush
        } else {
            Order::ExtractThenReceive
        },
        Action::Fail(error) => Order::Fail(error),
    }
}

/// The session's stage after an action of the adapter.
pub open spec fn spec_stage_after(action: Action) -> Stage {
    match action {
        Action::Extract { flush } => if flush {
            Stage::Resampling
        } else {
            Stage::Draining
        },
        Action::Fail(error) => Stage::Failed(error),
        _ => Stage::Resampling,
    }
}

/// Handing an event to the session's adapter.
pub open spec fn spec_resample(session: Session, event: Event) -> (Session, Order) {
    let (adapter, action) = spec_step(session.adapter, event);
    (Session { adapter, stage: spec_stage_after(action), ..session }, spec_order_of(action))
}

/// A failed session.
pub open spec fn spec_abort(session: Session, error: Error) -> (Session, Order) {
    (Session { stage: Stage::Failed(error), ..session }, Order::Fail(error))
}

/// The session's next state and order.
pub open spec fn spec_advance(session: Session, report: Report) -> (Session, Order) {
    match session.stage {
        Stage::Failed(error) => (session, Order::Fail(error)),
        Stage::Finished => (session, Order::Finish),
        Stage::Reading => match report {
            Report::Packet(packet) => match spec_classify(session.stream_idx, session.end, packet) {
                PacketAction::Decode => (
                    Session { stage: Stage::Sending, ..session },
                    Order::SendPacket,
                ),
                PacketAction::Stop => (Session { stage: Stage::Finished, ..session }, Order::Finish),
                _ => (session, Order::ReadPacket),
            },
            Report::EndOfStream => (Session { stage: Stage::Finished, ..session }, Order::Finish),
            Report::ReadFailed => spec_abort(session, Error::IOError),
            _ => spec_abort(session, Error::CodecError),
        },
        Stage::Sending => match report {
            Report::Sent(true) => (
                Session { stage: Stage::Draining, ..session },
                Order::ReceiveFrame,
            ),
            _ => spec_abort(session, Error::CodecError),
        },
        Stage::Draining => match report {
            Report::Received(Some(format)) => spec_resample(session, Event::Frame(format)),
            Report::Received(None) => (
                Session { stage: Stage::Reading, ..session },
                Order::ReadPacket,
            ),
            _ => spec_abort(session, Error::CodecError),
        },
        Stage::Resampling => match spec_adapter_event(report) {
            Some(event) => spec_resample(session, event),
            None => spec_abort(session, Error::CodecError),
        },
    }
}

impl Session {
    /// A frame is with the adapter exactly while the session is
    /// resampling: packets are read, submitted and drained only while the
    /// adapter waits, and an adapter that gave up has failed the session
    /// with its error.
    pub open spec fn wf(&self) -> bool {
        match self.stage {
            Stage::Resampling => self.adapter.phase is Running || self.adapter.phase is Replacing
                || self.adapter.phase is Flushing,
            Stage::Failed(error) => self.adapter.phase is Failed ==> self.adapter.phase
                == Phase::Failed(error),
            _ => self.adapter.phase is Idle,
        }
    }

    /// A session on the stream `stream_idx` that ends at `end`, if that is
    /// set, with a resampler built for the decoder's own format `source`
    /// and the target rate `target_rate`. Its first order is to read a packet.
    pub fn new(stream_idx: usize, end: Option<i64>, source: FormatTriple, target_rate: u32) -> (session:
        Session)
        ensures
            session == (Session {
                stream_idx,
                end,
                adapter: Adapter { active: source, target_rate, phase: Phase::Idle },
                stage: Stage::Reading,
            }),
            session.wf(),
    {
        Session { stream_idx, end, adapter: Adapter::new(source, target_rate), stage: Stage::Reading }
    }

    /// How far the session has come.
    pub fn stage(&self) -> (stage: Stage)
        ensures
            stage == self.stage,
    {
        self.stage
    }

    /// The source format that the active resampler was built for.
    pub fn active_format(&self) -> (format: FormatTriple)
        ensures
            format == self.adapter.active,
    {
        self.adapter.active()
    }

    fn abort(&mut self, error: Error) -> (order: Order)
        ensures
            (*final(self), order) == spec_abort(*old(self), error),
    {
        self.stage = Stage::Failed(error);
        Order::Fail(error)
    }

    fn resample(&mut self, event: Event) -> (order: Order)
        ensures
            (*final(self), order) == spec_resample(*old(self), event),
    {
        let mut adapter = self.adapter;
        let action = adapter.step(event);
        self.adapter = adapter;
        match action {
            Action::Run => {
                self.stage = Stage::Resampling;
                Order::Run
            },
            Action::Replace(format) => {
                self.stage = Stage::Resampling;
                Order::Replace(format)
            },
            Action::Extract { flush } => {
                if flush {
                    self.stage = Stage::Resampling;
                    Order::ExtractThenFlush
                } else {
                    self.stage = Stage::Draining;
                    Order::ExtractThenReceive
                }
            },
            Action::Fail(error) => {
                self.stage = Stage::Failed(error);
                Order::Fail(error)
            },
        }
    }

    /// Takes what the caller reports and gives the next order.
    pub fn advance(&mut self, report: Report) -> (order: Order)
        ensures
            (*final(self), order) == spec_advance(*old(self), report),
            old(self).wf() ==> final(self).wf(),
    {
        match self.stage {
            Stage::Failed(error) => Order::Fail(error),
            Stage::Finished => Order::Finish,
            Stage::Reading => match report {
                Report::Packet(packet) => match classify_packet(self.stream_idx, self.end, packet) {
                    PacketAction::Decode => {
                        self.stage = Stage::Sending;
                        Order::SendPacket
                    },
                    PacketAction::Stop => {
                        self.stage = Stage::Finished;
                        Order::Finish
                    },
                    _ => Order::ReadPacket,
                },
                Report::EndOfStream => {
                    self.stage = Stage::Finished;
                    Order::Finish
                },
                Report::ReadFailed => self.abort(Error::IOError),
                _ => self.abort(Error::CodecError),
            },
            Stage::Sending => match report {
                Report::Sent(true) => {
                    self.stage = Stage::Draining;
                    Order::ReceiveFrame
                },
                _ => self.abort(Error::CodecError),
            },
            Stage::Draining => match report {
                Report::Received(Some(format)) => self.resample(Event::Frame(format)),
                Report::Received(None) => {
                    self.stage = Stage::Reading;
                    Order::ReadPacket
                },
                _ => self.abort(Error::CodecError),
            },
            Stage::Resampling => match report {
                Report::Ran(c) => self.resample(Event::Ran(c)),
                Report::Replaced(c) => self.resample(Event::Replaced(c)),
                Report::Flushed(c) => self.resample(Event::Flushed(c)),
                _ => self.abort(Error::CodecError),
            },
        }
    }
}

/// A packet fit to be decoded: it belongs to the selected stream, carries a
/// positive timestamp and lies before the end bound where there is one.
pub open spec fn spec_fit(session: Session, packet: PacketMeta) -> bool {
    &&& packet.stream == session.stream_idx
    &&& packet.pts.is_some()
    &&& packet.pts.unwrap() > 0
    &&& session.end.is_some() ==> packet.pts.unwrap() < session.end.unwrap()
}

/// Whatever the session's state, a packet is submitted to the decoder only
/// when the session was reading and the packet just read is fit; and every
/// fit packet read is submitted.
pub proof fn lemma_only_fit_packets_sent(session: Session, report: Report)
    ensures
        spec_advance(session, report).1 == Order::SendPacket <==> (session.stage is Reading
            && report is Packet && spec_fit(session, report->Packet_0)),
{
}

/// A packet of the selected stream at or after the end bound finishes the
/// session before it is consumed, and no other packet does.
pub proof fn lemma_end_bound_finishes(session: Session, packet: PacketMeta)
    requires
        session.stage is Reading,
    ensures
        spec_advance(session, Report::Packet(packet)).1 == Order::Finish <==> spec_reaches_end(
            packet,
            session.stream_idx,
            session.end,
        ),
{
}

/// A packet's frames are drained before the next packet is read: the
/// session turns to reading only when the decoder has no frame left.
pub proof fn lemma_next_packet_after_drain(session: Session, report: Report)
    requires
        !(session.stage is Reading),
        spec_advance(session, report).0.stage is Reading,
    ensures
        session.stage is Draining,
        report == Report::Received(None),
        spec_advance(session, report).1 == Order::ReadPacket,
{
}

/// The session asks for an extraction exactly when its adapter does.
pub proof fn lemma_extraction_follows_adapter(session: Session, report: Report)
    ensures
        spec_is_extraction(spec_advance(session, report).1) <==> (session.stage is Resampling
            && spec_adapter_event(report).is_some() && spec_step(
            session.adapter,
            spec_adapter_event(report).unwrap(),
        ).1 is Extract),
{
}

/// The stream, the end bound and the target of a session never change,
/// and a session that has finished or failed stays as it is.
pub proof fn lemma_session_settings_fixed(session: Session, report: Report)
    ensures
        spec_advance(session, report).0.stream_idx == session.stream_idx,
        spec_advance(session, report).0.end == session.end,
        spec_advance(session, report).0.adapter.target_rate == session.adapter.target_rate,
        session.stage is Finished || session.stage is Failed ==> spec_advance(session, report).0
            == session,
{
}

/// The session after a sequence of reports.
pub open spec fn spec_session_after(session: Session, reports: Seq<Report>) -> Session
    decreases reports.len(),
{
    if reports.len() == 0 {
        session
    } else {
        spec_advance(spec_session_after(session, reports.drop_last()), reports.last()).0
    }
}

/// The order that the session gives for the last of a sequence of reports.
pub open spec fn spec_last_order(session: Session, reports: Seq<Report>) -> Order
    recommends
        reports.len() > 0,
{
    spec_advance(spec_session_after(session, reports.drop_last()), reports.last()).1
}

/// An order that appends the scratch frame's samples to the output.
pub open spec fn spec_is_extraction(order: Order) -> bool {
    order == Order::ExtractThenFlush || order == Order::ExtractThenReceive
}

/// A report of a conversion that filled the scratch frame.
pub open spec fn spec_reports_conversion(report: Report) -> bool {
    spec_adapter_event(report).is_some() && spec_is_conversion(spec_adapter_event(report).unwrap())
}

/// How often the output grows over a sequence of reports.
pub open spec fn spec_session_extractions(session: Session, reports: Seq<Report>) -> nat
    decreases reports.len(),
{
    if reports.len() == 0 {
        0
    } else {
        let now: nat = if spec_is_extraction(spec_last_order(session, reports)) {
            1
        } else {
            0
        };
        spec_session_extractions(session, reports.drop_last()) + now
    }
}

/// How many reports of a sequence tell of a conversion that filled the
/// scratch frame.
pub open spec fn spec_reported_conversions(reports: Seq<Report>) -> nat
    decreases reports.len(),
{
    if reports.len() == 0 {
        0
    } else {
        let now: nat = if spec_reports_conversion(reports.last()) {
            1
        } else {
            0
        };
        spec_reported_conversions(reports.drop_last()) + now
    }
}

/// The packets that are submitted to the decoder over a sequence of
/// reports, in order.
pub open spec fn spec_sent_packets(session: Session, reports: Seq<Report>) -> Seq<PacketMeta>
    decreases reports.len(),
{
    if reports.len() == 0 {
        Seq::empty()
    } else if spec_last_order(session, reports) == Order::SendPacket {
        spec_sent_packets(session, reports.drop_last()).push(reports.last()->Packet_0)
    } else {
        spec_sent_packets(session, reports.drop_last())
    }
}

/// Over any sequence of reports the session keeps its stream, its end
/// bound and its target, and stays well-formed.
pub proof fn lemma_session_keeps_settings(session: Session, reports: Seq<Report>)
    ensures
        spec_session_after(session, reports).stream_idx == session.stream_idx,
        spec_session_after(session, reports).end == session.end,
        spec_session_after(session, reports).adapter.target_rate == session.adapter.target_rate,
        session.wf() ==> spec_session_after(session, reports).wf(),
    decreases reports.len(),
{
    if reports.len() > 0 {
        lemma_session_keeps_settings(session, reports.drop_last());
    }
}

/// Whatever is reported, every packet that reaches the decoder belongs to
/// the selected stream, carries a positive timestamp and lies before the
/// end bound.
pub proof fn lemma_sent_packets_fit(session: Session, reports: Seq<Report>)
    ensures
        forall|i: int|
            0 <= i < spec_sent_packets(session, reports).len() ==> spec_fit(
                session,
                #[trigger] spec_sent_packets(session, reports)[i],
            ),
    decreases reports.len(),
{
    if reports.len() > 0 {
        let before = spec_session_after(session, reports.drop_last());
        let earlier = spec_sent_packets(session, reports.drop_last());
        let sent = spec_sent_packets(session, reports);
        lemma_sent_packets_fit(session, reports.drop_last());
        lemma_session_keeps_settings(session, reports.drop_last());
        lemma_only_fit_packets_sent(before, reports.last());
        assert forall|i: int| 0 <= i < sent.len() implies spec_fit(session, #[trigger] sent[i]) by {
            if i < earlier.len() {
                assert(sent[i] == earlier[i]);
            } else {
                assert(spec_last_order(session, reports) == Order::SendPacket);
                assert(sent[i] == reports.last()->Packet_0);
                assert(spec_fit(before, sent[i]));
            }
        }
    }
}

/// Once the session has finished, because the packets ran out or one of
/// them reached the end bound, nothing that is reported later changes it:
/// no packet is submitted to the decoder and the output does not grow.
pub proof fn lemma_nothing_sent_after_finish(
    session: Session,
    reports: Seq<Report>,
    later: Seq<Report>,
)
    requires
        spec_session_after(session, reports).stage is Finished,
    ensures
        spec_session_after(session, reports + later) == spec_session_after(session, reports),
        spec_sent_packets(session, reports + later) == spec_sent_packets(session, reports),
        spec_session_extractions(session, reports + later) == spec_session_extractions(
            session,
            reports,
        ),
    decreases later.len(),
{
    if later.len() == 0 {
        assert(reports + later =~= reports);
    } else {
        lemma_nothing_sent_after_finish(session, reports, later.drop_last());
        assert((reports + later).drop_last() =~= reports + later.drop_last());
        assert((reports + later).last() == later.last());
    }
}

/// In a session that has not failed, and that did not finish before its
/// last report, the output grows once for each conversion that filled the
/// scratch frame (the run on a frame, the run of a replacement, a flush)
/// and at no other time: no frame is dropped and no flush comes twice.
pub proof fn lemma_session_extracts_each_conversion_once(session: Session, reports: Seq<Report>)
    requires
        !(spec_session_after(session, reports).stage is Failed),
        reports.len() > 0 ==> !(spec_session_after(session, reports.drop_last()).stage is Finished),
    ensures
        spec_session_extractions(session, reports) == spec_reported_conversions(reports),
    decreases reports.len(),
{
    if reports.len() > 0 {
        let prefix = reports.drop_last();
        let before = spec_session_after(session, prefix);
        if prefix.len() > 0 {
            let earlier = spec_session_after(session, prefix.drop_last());
            assert(earlier.stage is Finished ==> before == earlier);
        }
        lemma_session_extracts_each_conversion_once(session, prefix);
    }
}

/// A session's course depends on nothing but its state and what it is
/// told: two sessions in one state that get the same reports submit the
/// same packets, extract as often and end in the same state.
pub proof fn lemma_same_reports_same_course(first: Session, second: Session, reports: Seq<Report>)
    requires
        first == second,
    ensures
        spec_session_after(first, reports) == spec_session_after(second, reports),
        spec_sent_packets(first, reports) == spec_sent_packets(second, reports),
        spec_session_extractions(first, reports) == spec_session_extractions(second, reports),
        reports.len() > 0 ==> spec_last_order(first, reports) == spec_last_order(second, reports),
{
}

} // verus!
