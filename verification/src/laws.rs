//! What holds of the adapters over whole runs, whatever the engine answers.
//!
//! A run is a sequence of cycles. In each cycle the engine may produce bytes,
//! which go behind what the window holds, and the caller may then be handed
//! up to `want` of the pending bytes. Every operation of both adapters is
//! such a cycle.

use vstd::prelude::*;
use crate::comp::{
    poll_bytes,
    poll_delivers,
    poll_feeds,
    poll_finished,
    poll_result,
    poll_window,
    PollStep,
};
use crate::decomp::{
    frame_info_known,
    frame_info_result,
    frame_info_window,
    pull_result,
    pull_window,
    read_bytes,
    read_delivers,
    read_result,
    read_window,
    HeaderStep,
    ReadStep,
};
use crate::engine::Decoded;
use crate::error::{Error, Fault};
use crate::frame::FrameInfo;
use crate::window::{lemma_advance, lemma_append, Window};

verus! {

/// One cycle of an adapter, seen from its output window.
pub struct Cycle {
    /// What the engine produced in the cycle.
    pub produced: Seq<u8>,
    /// Whether the cycle hands pending bytes to the caller.
    pub delivers: bool,
    /// How many bytes the caller has room for.
    pub want: nat,
}

impl Cycle {
    /// The window after the cycle.
    pub open spec fn window(self, w: Window) -> Window {
        let filled = w.append(self.produced);
        if self.delivers {
            filled.advance(filled.grant(self.want))
        } else {
            filled
        }
    }

    /// The bytes the cycle hands to the caller.
    pub open spec fn delivered(self, w: Window) -> Seq<u8> {
        if self.delivers {
            w.append(self.produced).granted(self.want)
        } else {
            Seq::empty()
        }
    }
}

/// The window after a run of cycles.
pub open spec fn run_window(w: Window, cycles: Seq<Cycle>) -> Window
    decreases cycles.len(),
{
    if cycles.len() == 0 {
        w
    } else {
        cycles.last().window(run_window(w, cycles.drop_last()))
    }
}

/// Everything a run of cycles hands to the caller, in the order of the calls.
pub open spec fn run_delivered(w: Window, cycles: Seq<Cycle>) -> Seq<u8>
    decreases cycles.len(),
{
    if cycles.len() == 0 {
        Seq::empty()
    } else {
        run_delivered(w, cycles.drop_last()) + cycles.last().delivered(
            run_window(w, cycles.drop_last()),
        )
    }
}

/// Everything the engine produces during a run of cycles, in order.
pub open spec fn run_produced(cycles: Seq<Cycle>) -> Seq<u8>
    decreases cycles.len(),
{
    if cycles.len() == 0 {
        Seq::empty()
    } else {
        run_produced(cycles.drop_last()) + cycles.last().produced
    }
}

/// A cycle keeps the window well formed, and what it delivers followed by
/// what stays pending is what was pending followed by what was produced.
pub proof fn lemma_cycle(w: Window, cycle: Cycle)
    requires
        w.wf(),
    ensures
        cycle.window(w).wf(),
        cycle.delivered(w) + cycle.window(w).pending() == w.pending() + cycle.produced,
{
    let filled = w.append(cycle.produced);
    lemma_append(w, cycle.produced);
    if cycle.delivers {
        lemma_advance(filled, cycle.want);
        lemma_advance(filled, filled.grant(cycle.want));
        assert(filled.grant(filled.grant(cycle.want)) == filled.grant(cycle.want));
    } else {
        assert(Seq::<u8>::empty() + filled.pending() =~= filled.pending());
    }
}

/// The cursor invariant: after any run the cursor lies within the window,
/// and a window whose cursor has reached its end is empty with the cursor
/// back at zero.
pub proof fn lemma_cursor_invariant(w: Window, cycles: Seq<Cycle>)
    requires
        w.wf(),
    ensures
        run_window(w, cycles).wf(),
        run_window(w, cycles).consumed <= run_window(w, cycles).data.len(),
        run_window(w, cycles).consumed == run_window(w, cycles).data.len() ==> run_window(
            w,
            cycles,
        ) == Window::empty(),
    decreases cycles.len(),
{
    if cycles.len() > 0 {
        lemma_cursor_invariant(w, cycles.drop_last());
        lemma_cycle(run_window(w, cycles.drop_last()), cycles.last());
    }
    let end = run_window(w, cycles);
    if end.consumed == end.data.len() {
        assert(end.data =~= Seq::<u8>::empty());
    }
}

/// No byte is lost and none is handed over twice: after any run, what was
/// delivered followed by what is still pending is exactly what was pending
/// at the start followed by everything the engine produced.
pub proof fn lemma_no_loss_no_duplication(w: Window, cycles: Seq<Cycle>)
    requires
        w.wf(),
    ensures
        run_delivered(w, cycles) + run_window(w, cycles).pending() == w.pending() + run_produced(
            cycles,
        ),
    decreases cycles.len(),
{
    if cycles.len() == 0 {
        assert(Seq::<u8>::empty() + w.pending() =~= w.pending() + Seq::<u8>::empty());
    } else {
        let before = cycles.drop_last();
        let last = cycles.last();
        let mid = run_window(w, before);
        lemma_no_loss_no_duplication(w, before);
        lemma_cursor_invariant(w, before);
        lemma_cycle(mid, last);
        assert(run_delivered(w, cycles) + run_window(w, cycles).pending() =~= run_delivered(
            w,
            before,
        ) + (last.delivered(mid) + last.window(mid).pending()));
        assert(run_delivered(w, before) + (mid.pending() + last.produced) =~= (run_delivered(
            w,
            before,
        ) + mid.pending()) + last.produced);
        assert((w.pending() + run_produced(before)) + last.produced =~= w.pending() + (
        run_produced(before) + last.produced));
    }
}

/// A run that starts with an empty window and ends with nothing pending has
/// delivered exactly what the engine produced.
pub proof fn lemma_drained_run_delivers_all(cycles: Seq<Cycle>)
    requires
        run_window(Window::empty(), cycles).pending().len() == 0,
    ensures
        run_delivered(Window::empty(), cycles) == run_produced(cycles),
{
    let w = Window::empty();
    lemma_no_loss_no_duplication(w, cycles);
    assert(run_delivered(w, cycles) + run_window(w, cycles).pending() =~= run_delivered(
        w,
        cycles,
    ));
    assert(w.pending() + run_produced(cycles) =~= run_produced(cycles));
}

/// The cycle that one cycle of a read is.
pub open spec fn read_cycle(offered: usize, outcome: Result<Decoded, Fault>, want: nat) -> Cycle {
    Cycle {
        produced: if pull_result(offered, outcome) is Ok {
            outcome->Ok_0.output@
        } else {
            Seq::empty()
        },
        delivers: read_delivers(offered, outcome),
        want,
    }
}

/// One cycle of a read is a cycle of the run model: it leaves the window
/// and fills the destination as `read_cycle` says.
pub proof fn lemma_read_is_cycle(
    w: Window,
    offered: usize,
    outcome: Result<Decoded, Fault>,
    dst: Seq<u8>,
)
    requires
        w.wf(),
    ensures
        read_window(w, offered, outcome, dst.len()) == read_cycle(
            offered,
            outcome,
            dst.len(),
        ).window(w),
        read_bytes(w, offered, outcome, dst) == read_cycle(offered, outcome, dst.len()).delivered(
            w,
        ) + dst.skip(read_cycle(offered, outcome, dst.len()).delivered(w).len() as int),
        pull_window(w, offered, outcome) == w.append(
            read_cycle(offered, outcome, dst.len()).produced,
        ),
{
    assert(w.data + Seq::<u8>::empty() =~= w.data);
    assert(Seq::<u8>::empty() + dst.skip(0) =~= dst);
}

/// One cycle of a read: the length of the region handed in, what the engine
/// answers, and how many bytes the caller has room for.
pub struct ReadCall {
    pub offered: usize,
    pub outcome: Result<Decoded, Fault>,
    pub want: nat,
}

impl ReadCall {
    /// The cycle that the call is.
    pub open spec fn cycle(self) -> Cycle {
        read_cycle(self.offered, self.outcome, self.want)
    }
}

/// The window after a run of read cycles.
pub open spec fn reads_window(w: Window, calls: Seq<ReadCall>) -> Window
    decreases calls.len(),
{
    if calls.len() == 0 {
        w
    } else {
        read_window(
            reads_window(w, calls.drop_last()),
            calls.last().offered,
            calls.last().outcome,
            calls.last().want,
        )
    }
}

/// Everything a run of read cycles hands to the caller, in the order of the calls.
pub open spec fn reads_delivered(w: Window, calls: Seq<ReadCall>) -> Seq<u8>
    decreases calls.len(),
{
    if calls.len() == 0 {
        Seq::empty()
    } else {
        reads_delivered(w, calls.drop_last()) + calls.last().cycle().delivered(
            reads_window(w, calls.drop_last()),
        )
    }
}

/// Everything the engine decodes during a run of read cycles, in order,
/// from the answers that were accepted.
pub open spec fn reads_produced(calls: Seq<ReadCall>) -> Seq<u8>
    decreases calls.len(),
{
    if calls.len() == 0 {
        Seq::empty()
    } else {
        reads_produced(calls.drop_last()) + calls.last().cycle().produced
    }
}

/// No byte is lost and none is handed over twice across reads: after any
/// run of read cycles, what was delivered followed by what is still pending
/// is what was pending at the start followed by everything the engine
/// decoded. A run that starts with nothing pending and ends with nothing
/// pending has delivered exactly what the engine decoded.
pub proof fn lemma_reads_conserve_bytes(w: Window, calls: Seq<ReadCall>)
    requires
        w.wf(),
    ensures
        reads_window(w, calls).wf(),
        reads_delivered(w, calls) + reads_window(w, calls).pending() == w.pending()
            + reads_produced(calls),
        w.pending().len() == 0 && reads_window(w, calls).pending().len() == 0 ==> reads_delivered(
            w,
            calls,
        ) == reads_produced(calls),
    decreases calls.len(),
{
    if calls.len() == 0 {
        assert(Seq::<u8>::empty() + w.pending() =~= w.pending() + Seq::<u8>::empty());
    } else {
        let before = calls.drop_last();
        let last = calls.last();
        let mid = reads_window(w, before);
        lemma_reads_conserve_bytes(w, before);
        lemma_read_is_cycle(mid, last.offered, last.outcome, Seq::new(last.want, |i: int| 0u8));
        lemma_cycle(mid, last.cycle());
        assert(reads_delivered(w, calls) + reads_window(w, calls).pending() =~= reads_delivered(
            w,
            before,
        ) + (last.cycle().delivered(mid) + last.cycle().window(mid).pending()));
        assert(reads_delivered(w, before) + (mid.pending() + last.cycle().produced) =~= (
        reads_delivered(w, before) + mid.pending()) + last.cycle().produced);
        assert((w.pending() + reads_produced(before)) + last.cycle().produced =~= w.pending() + (
        reads_produced(before) + last.cycle().produced));
    }
    if w.pending().len() == 0 && reads_window(w, calls).pending().len() == 0 {
        assert(reads_delivered(w, calls) + reads_window(w, calls).pending() =~= reads_delivered(
            w,
            calls,
        ));
        assert(w.pending() + reads_produced(calls) =~= reads_produced(calls));
    }
}

/// Giving up `amount` pending bytes is the cycle that produces nothing and
/// delivers up to `amount` bytes.
pub proof fn lemma_consume_is_cycle(w: Window, amount: nat)
    requires
        w.wf(),
    ensures
        w.advance(amount) == (Cycle { produced: Seq::empty(), delivers: true, want: amount }).window(
            w,
        ),
{
    assert(w.data + Seq::<u8>::empty() =~= w.data);
}

/// Zero progress ends the pull: whatever the engine answers to an empty
/// region, the cycle does not ask for another one; and a cycle that asks for
/// another one has taken at least one byte and no more than it was offered.
pub proof fn lemma_pull_stops_without_progress(
    w: Window,
    offered: usize,
    outcome: Result<Decoded, Fault>,
    want: nat,
)
    ensures
        read_result(w, offered, outcome, want) matches Ok(ReadStep::More { used }) ==> 0 < used
            <= offered,
        offered == 0 ==> !(read_result(w, offered, outcome, want) matches Ok(
            ReadStep::More { .. },
        )),
        pull_result(offered, outcome) == Ok::<usize, Error>(0) ==> read_result(
            w,
            offered,
            outcome,
            want,
        ) matches Ok(ReadStep::Done { .. }),
{
}

/// Reading the frame header is idempotent: once a header read has returned
/// the header, every later one returns the same header, asks for nothing to
/// be consumed at the source, and leaves the window and the cached header
/// as they are, whatever region it is handed and whatever the engine would
/// have answered.
pub proof fn lemma_frame_info_idempotent(
    w: Window,
    known: Option<FrameInfo>,
    probe: Option<FrameInfo>,
    offered: usize,
    outcome: Result<Decoded, Fault>,
    seen: Option<FrameInfo>,
    later_probe: Option<FrameInfo>,
    later_offered: usize,
    later_outcome: Result<Decoded, Fault>,
    later_seen: Option<FrameInfo>,
)
    ensures
        frame_info_result(known, probe, offered, outcome, seen) matches Ok(
            HeaderStep::Known { info, .. },
        ) ==> ({
            let cached = frame_info_known(known, probe, offered, outcome, seen);
            let held = frame_info_window(w, known, probe, offered, outcome);
            &&& cached == Some(info)
            &&& frame_info_result(cached, later_probe, later_offered, later_outcome, later_seen)
                == Ok::<HeaderStep, Error>(HeaderStep::Known { info, used: 0 })
            &&& frame_info_known(cached, later_probe, later_offered, later_outcome, later_seen)
                == cached
            &&& frame_info_window(held, cached, later_probe, later_offered, later_outcome) == held
        }),
{
}

/// A header read on an empty region never asks for another cycle, so the
/// reading ends when the source does.
pub proof fn lemma_frame_info_stops_at_end(
    known: Option<FrameInfo>,
    probe: Option<FrameInfo>,
    outcome: Result<Decoded, Fault>,
    seen: Option<FrameInfo>,
)
    ensures
        !(frame_info_result(known, probe, 0, outcome, seen) matches Ok(HeaderStep::More { .. })),
{
}

/// The state of a poll adapter that its polls depend on.
pub struct PollState {
    pub window: Window,
    pub finished: bool,
}

/// One poll: what the source gave, what the engine answers if it is asked,
/// and how many bytes the caller has room for.
pub struct PollCall {
    /// The length of the ready region; `None` where the source was not ready.
    pub source: Option<usize>,
    pub answer: Result<Vec<u8>, Fault>,
    pub want: nat,
}

impl PollCall {
    /// The state after the poll.
    pub open spec fn next(self, s: PollState) -> PollState {
        PollState {
            window: poll_window(s.window, s.finished, self.source, self.answer, self.want),
            finished: poll_finished(s.finished, self.source, self.answer),
        }
    }

    /// The bytes the poll hands to the caller.
    pub open spec fn delivered(self, s: PollState) -> Seq<u8> {
        self.cycle(s).delivered(s.window)
    }

    /// The cycle that the poll is.
    pub open spec fn cycle(self, s: PollState) -> Cycle {
        Cycle {
            produced: if poll_feeds(s.finished, self.source) && self.answer is Ok {
                self.answer->Ok_0@
            } else {
                Seq::empty()
            },
            delivers: poll_delivers(s.window, s.finished, self.source, self.answer),
            want: self.want,
        }
    }

    /// The source was ready in this poll.
    pub open spec fn ready(self) -> bool {
        self.source is Some
    }
}

/// One poll is a cycle of the run model: a poll into `dst` leaves the window
/// and fills the destination as its cycle says.
pub proof fn lemma_poll_is_cycle(
    s: PollState,
    source: Option<usize>,
    answer: Result<Vec<u8>, Fault>,
    dst: Seq<u8>,
)
    requires
        s.window.wf(),
    ensures
        ({
            let call = PollCall { source, answer, want: dst.len() };
            &&& call.next(s).window == call.cycle(s).window(s.window)
            &&& poll_bytes(s.window, s.finished, source, answer, dst) == call.delivered(s)
                + dst.skip(call.delivered(s).len() as int)
            &&& call.next(s).window.wf()
        }),
{
    let call = PollCall { source, answer, want: dst.len() };
    assert(s.window.data + Seq::<u8>::empty() =~= s.window.data);
    assert(Seq::<u8>::empty() + dst.skip(0) =~= dst);
    lemma_cycle(s.window, call.cycle(s));
}

/// The state after a run of polls.
pub open spec fn polls_state(s: PollState, calls: Seq<PollCall>) -> PollState
    decreases calls.len(),
{
    if calls.len() == 0 {
        s
    } else {
        calls.last().next(polls_state(s, calls.drop_last()))
    }
}

/// Everything a run of polls hands to the caller, in the order of the calls.
pub open spec fn polls_delivered(s: PollState, calls: Seq<PollCall>) -> Seq<u8>
    decreases calls.len(),
{
    if calls.len() == 0 {
        Seq::empty()
    } else {
        polls_delivered(s, calls.drop_last()) + calls.last().delivered(
            polls_state(s, calls.drop_last()),
        )
    }
}

/// Everything the engine produces during a run of polls, in order, from the
/// answers that were accepted.
pub open spec fn polls_produced(s: PollState, calls: Seq<PollCall>) -> Seq<u8>
    decreases calls.len(),
{
    if calls.len() == 0 {
        Seq::empty()
    } else {
        polls_produced(s, calls.drop_last()) + calls.last().cycle(
            polls_state(s, calls.drop_last()),
        ).produced
    }
}

/// A suspended poll changes nothing and delivers nothing.
pub proof fn lemma_suspended_poll_is_idle(s: PollState, call: PollCall)
    requires
        !call.ready(),
    ensures
        call.next(s) == s,
        call.delivered(s) == Seq::<u8>::empty(),
        poll_result(s.window, s.finished, call.source, call.answer, call.want) == Ok::<
            PollStep,
            Error,
        >(PollStep::Pending),
{
}

/// Suspension is transparent: a run of polls in which the source is at times
/// not ready ends in the same state and delivers the same bytes as the run
/// of its ready polls alone. The engine is not asked in a suspended poll,
/// so its answers in the ready polls are the same in both runs.
pub proof fn lemma_suspension_transparent(s: PollState, calls: Seq<PollCall>)
    ensures
        polls_state(s, calls) == polls_state(s, calls.filter(|c: PollCall| c.ready())),
        polls_delivered(s, calls) == polls_delivered(s, calls.filter(|c: PollCall| c.ready())),
    decreases calls.len(),
{
    let ready = |c: PollCall| c.ready();
    if calls.len() > 0 {
        let before = calls.drop_last();
        let last = calls.last();
        lemma_suspension_transparent(s, before);
        reveal_with_fuel(Seq::filter, 2);
        if last.ready() {
            let kept = before.filter(ready).push(last);
            assert(calls.filter(ready) == kept);
            assert(kept.drop_last() =~= before.filter(ready));
            assert(kept.last() == last);
        } else {
            assert(calls.filter(ready) == before.filter(ready));
            lemma_suspended_poll_is_idle(polls_state(s, before), last);
            assert(polls_delivered(s, before) + Seq::<u8>::empty() =~= polls_delivered(
                s,
                before,
            ));
        }
    }
}

/// No byte is lost and none is handed over twice across polls: after any
/// run, what was delivered followed by what is still pending is what was
/// pending at the start followed by everything the engine produced. A run
/// that starts with nothing pending and ends with nothing pending has
/// delivered exactly what the engine produced.
pub proof fn lemma_polls_conserve_bytes(s: PollState, calls: Seq<PollCall>)
    requires
        s.window.wf(),
    ensures
        polls_state(s, calls).window.wf(),
        polls_delivered(s, calls) + polls_state(s, calls).window.pending() == s.window.pending()
            + polls_produced(s, calls),
        s.window.pending().len() == 0 && polls_state(s, calls).window.pending().len() == 0
            ==> polls_delivered(s, calls) == polls_produced(s, calls),
    decreases calls.len(),
{
    if calls.len() == 0 {
        assert(Seq::<u8>::empty() + s.window.pending() =~= s.window.pending() + Seq::<
            u8,
        >::empty());
    } else {
        let before = calls.drop_last();
        let last = calls.last();
        let mid = polls_state(s, before);
        lemma_polls_conserve_bytes(s, before);
        lemma_poll_is_cycle(mid, last.source, last.answer, Seq::new(last.want, |i: int| 0u8));
        lemma_cycle(mid.window, last.cycle(mid));
        assert(polls_delivered(s, calls) + polls_state(s, calls).window.pending()
            =~= polls_delivered(s, before) + (last.delivered(mid) + last.next(
            mid,
        ).window.pending()));
        assert(polls_delivered(s, before) + (mid.window.pending() + last.cycle(mid).produced)
            =~= (polls_delivered(s, before) + mid.window.pending()) + last.cycle(mid).produced);
        assert((s.window.pending() + polls_produced(s, before)) + last.cycle(mid).produced
            =~= s.window.pending() + (polls_produced(s, before) + last.cycle(mid).produced));
    }
    if s.window.pending().len() == 0 && polls_state(s, calls).window.pending().len() == 0 {
        assert(polls_delivered(s, calls) + polls_state(s, calls).window.pending()
            =~= polls_delivered(s, calls));
        assert(s.window.pending() + polls_produced(s, calls) =~= polls_produced(s, calls));
    }
}

} // verus!
