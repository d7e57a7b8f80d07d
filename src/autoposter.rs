use vstd::prelude::*;

use crate::adapters::{Serenity, Twilight};
use crate::shared_stats::{SharedStats, SharedStatsView};

verus! {

/// The shortest interval between two posts that the remote service accepts.
pub const MIN_INTERVAL_SECS: u64 = 900;

/// Anything that can tell the poster where its live statistics are.
pub trait Handler {
    /// The state of the statistics this handler feeds.
    spec fn stats_view(&self) -> SharedStatsView;

    /// The statistics that the poster reads.
    fn stats(&self) -> (r: &SharedStats)
        ensures
            r@ == self.stats_view(),
    ;

    /// The statistics, for the poster to consume the pending signal.
    fn stats_mut(&mut self) -> (r: &mut SharedStats)
        ensures
            r@ == old(self).stats_view(),
            final(self).stats_view() == final(r)@,
    ;
}

impl Handler for Serenity {
    open spec fn stats_view(&self) -> SharedStatsView {
        self@.tracker.stats
    }

    fn stats(&self) -> (r: &SharedStats) {
        Serenity::stats(self)
    }

    fn stats_mut(&mut self) -> (r: &mut SharedStats) {
        Serenity::stats_mut(self)
    }
}

impl Handler for Twilight {
    open spec fn stats_view(&self) -> SharedStatsView {
        self@.stats
    }

    fn stats(&self) -> (r: &SharedStats) {
        Twilight::stats(self)
    }

    fn stats_mut(&mut self) -> (r: &mut SharedStats) {
        Twilight::stats_mut(self)
    }
}

/// Why a poster could not be configured.
#[derive(Clone, Copy, Debug, PartialEq, Eq, Structural)]
pub enum ConfigError {
    /// The interval is below [`MIN_INTERVAL_SECS`].
    IntervalTooShort { secs: u64 },
}

/// What the posting task is waiting for.
#[derive(Clone, Copy, Debug, PartialEq, Eq, Structural)]
pub enum Phase {
    /// The pending-change signal.
    Signal,
    /// The result of the post.
    Post,
    /// Whether the outcome reached the observer.
    Report,
    /// The end of the cooldown.
    Sleep,
    /// Nothing: the task has ended.
    Stopped,
}

/// What happened outside, handed to the posting task.
pub enum LoopEvent<O> {
    /// A pending-change permit was consumed.
    Signalled,
    /// The post finished, with this outcome.
    Posted(O),
    /// The outcome was offered to the observer; `delivered` is false when the
    /// receiving end is gone.
    Reported { delivered: bool },
    /// The cooldown elapsed.
    Slept,
    /// The owner dropped the poster.
    Cancelled,
}

/// What the posting task does next.
pub enum LoopAction<O> {
    /// Wait for the pending-change signal.
    WaitForSignal,
    /// Read the current snapshot and post it.
    PostStats,
    /// Hand this outcome to the observer.
    Report(O),
    /// Sleep this many seconds.
    Sleep { secs: u64 },
    /// End the task.
    Exit,
    /// The event did not fit the phase: keep waiting for what was awaited.
    Ignore,
}

/// The abstract state of a [`PostLoop`].
pub struct LoopState {
    pub interval_secs: u64,
    pub waits_for_signal: bool,
    pub phase: Phase,
}

/// The invariant of a posting task: the cooldown respects the service's minimum.
pub open spec fn loop_wf(s: LoopState) -> bool {
    s.interval_secs >= MIN_INTERVAL_SECS
}

/// Where a round starts: at the signal, or, for a handler without one, at the post.
pub open spec fn round_start(s: LoopState) -> LoopState {
    LoopState {
        phase: if s.waits_for_signal {
            Phase::Signal
        } else {
            Phase::Post
        },
        ..s
    }
}

/// The action that opens a round.
pub open spec fn round_action<O>(s: LoopState) -> LoopAction<O> {
    if s.waits_for_signal {
        LoopAction::WaitForSignal
    } else {
        LoopAction::PostStats
    }
}

/// The state with another phase.
pub open spec fn in_phase(s: LoopState, phase: Phase) -> LoopState {
    LoopState { phase, ..s }
}

/// One step of the posting task. A cancellation ends it from any phase; a
/// failed post is reported like a success and never stops it; only an observer
/// that is gone does.
pub open spec fn loop_step<O>(s: LoopState, e: LoopEvent<O>) -> (LoopState, LoopAction<O>) {
    match (s.phase, e) {
        (Phase::Stopped, _) => (s, LoopAction::Exit),
        (_, LoopEvent::Cancelled) => (in_phase(s, Phase::Stopped), LoopAction::Exit),
        (Phase::Signal, LoopEvent::Signalled) => (in_phase(s, Phase::Post), LoopAction::PostStats),
        (Phase::Post, LoopEvent::Posted(o)) => (in_phase(s, Phase::Report), LoopAction::Report(o)),
        (Phase::Report, LoopEvent::Reported { delivered }) => if delivered {
            (in_phase(s, Phase::Sleep), LoopAction::Sleep { secs: s.interval_secs })
        } else {
            (in_phase(s, Phase::Stopped), LoopAction::Exit)
        },
        (Phase::Sleep, LoopEvent::Slept) => (round_start(s), round_action(s)),
        _ => (s, LoopAction::Ignore),
    }
}

/// The state and the actions after a run of events, in order.
pub open spec fn loop_run<O>(s: LoopState, es: Seq<LoopEvent<O>>) -> (LoopState, Seq<LoopAction<O>>)
    decreases es.len(),
{
    if es.len() == 0 {
        (s, Seq::empty())
    } else {
        let (p, acts) = loop_run(s, es.drop_last());
        let (q, a) = loop_step(p, es.last());
        (q, acts.push(a))
    }
}

/// The decisions of the background posting task, one event at a time. The
/// task itself waits, posts, reports and sleeps as the actions say.
pub struct PostLoop {
    interval_secs: u64,
    waits_for_signal: bool,
    phase: Phase,
}

impl View for PostLoop {
    type V = LoopState;

    closed spec fn view(&self) -> LoopState {
        LoopState {
            interval_secs: self.interval_secs,
            waits_for_signal: self.waits_for_signal,
            phase: self.phase,
        }
    }
}

impl PostLoop {
    /// A task that posts at most once per `interval_secs`; with
    /// `waits_for_signal` each round waits for a change first. Refuses an
    /// interval below [`MIN_INTERVAL_SECS`], before anything is started.
    pub fn new(interval_secs: u64, waits_for_signal: bool) -> (r: Result<PostLoop, ConfigError>)
        ensures
            interval_secs < MIN_INTERVAL_SECS <==> r is Err,
            r is Err ==> r == Err::<PostLoop, ConfigError>(
                ConfigError::IntervalTooShort { secs: interval_secs },
            ),
            r matches Ok(l) ==> loop_wf(l@) && l@ == round_start(
                LoopState { interval_secs, waits_for_signal, phase: Phase::Stopped },
            ),
    {
        if interval_secs < MIN_INTERVAL_SECS {
            return Err(ConfigError::IntervalTooShort { secs: interval_secs });
        }
        Ok(
            PostLoop {
                interval_secs,
                waits_for_signal,
                phase: if waits_for_signal {
                    Phase::Signal
                } else {
                    Phase::Post
                },
            },
        )
    }

    /// The action that opens the first round.
    pub fn first_action<O>(&self) -> (r: LoopAction<O>)
        ensures
            r == round_action::<O>(self@),
    {
        if self.waits_for_signal {
            LoopAction::WaitForSignal
        } else {
            LoopAction::PostStats
        }
    }

    /// What the task is waiting for.
    pub fn phase(&self) -> (r: Phase)
        ensures
            r == self@.phase,
    {
        self.phase
    }

    /// The cooldown between two posts, in seconds.
    pub fn interval_secs(&self) -> (r: u64)
        ensures
            r == self@.interval_secs,
    {
        self.interval_secs
    }

    /// Takes one event and returns the next action.
    pub fn on_event<O>(&mut self, event: LoopEvent<O>) -> (r: LoopAction<O>)
        requires
            loop_wf(old(self)@),
        ensures
            loop_wf(final(self)@),
            (final(self)@, r) == loop_step(old(self)@, event),
            r matches LoopAction::Sleep { secs } ==> secs >= MIN_INTERVAL_SECS,
    {
        match (self.phase, event) {
            (Phase::Stopped, _) => LoopAction::Exit,
            (_, LoopEvent::Cancelled) => {
                self.phase = Phase::Stopped;
                LoopAction::Exit
            },
            (Phase::Signal, LoopEvent::Signalled) => {
                self.phase = Phase::Post;
                LoopAction::PostStats
            },
            (Phase::Post, LoopEvent::Posted(o)) => {
                self.phase = Phase::Report;
                LoopAction::Report(o)
            },
            (Phase::Report, LoopEvent::Reported { delivered }) => {
                if delivered {
                    self.phase = Phase::Sleep;
                    LoopAction::Sleep { secs: self.interval_secs }
                } else {
                    self.phase = Phase::Stopped;
                    LoopAction::Exit
                }
            },
            (Phase::Sleep, LoopEvent::Slept) => {
                if self.waits_for_signal {
                    self.phase = Phase::Signal;
                    LoopAction::WaitForSignal
                } else {
                    self.phase = Phase::Post;
                    LoopAction::PostStats
                }
            },
            _ => LoopAction::Ignore,
        }
    }
}

/// Every outcome of a post, failure or success, is handed to the observer as
/// it came; once it is delivered the task cools down for the whole interval,
/// never retrying at once.
pub proof fn lemma_outcome_reported_then_cooldown<O>(s: LoopState, o: O)
    requires
        loop_wf(s),
        s.phase == Phase::Post,
    ensures
        loop_step(s, LoopEvent::Posted(o)).1 == LoopAction::Report(o),
        loop_step(loop_step(s, LoopEvent::Posted(o)).0, LoopEvent::<O>::Reported { delivered: true })
            == (in_phase(s, Phase::Sleep), LoopAction::<O>::Sleep { secs: s.interval_secs }),
        s.interval_secs >= MIN_INTERVAL_SECS,
{
}

/// Once the poster is cancelled, no run of later events, whatever they are,
/// leads to another post: the task stays stopped and only exits.
pub proof fn lemma_no_post_after_cancel<O>(s: LoopState, es: Seq<LoopEvent<O>>)
    ensures
        ({
            let stopped = loop_step(s, LoopEvent::<O>::Cancelled).0;
            let (t, acts) = loop_run(stopped, es);
            &&& t.phase == Phase::Stopped
            &&& forall|i: int| 0 <= i < acts.len() ==> acts[i] is Exit
        }),
{
    lemma_stopped_stays_stopped(loop_step(s, LoopEvent::<O>::Cancelled).0, es);
}

proof fn lemma_stopped_stays_stopped<O>(s: LoopState, es: Seq<LoopEvent<O>>)
    requires
        s.phase == Phase::Stopped,
    ensures
        loop_run(s, es).0.phase == Phase::Stopped,
        forall|i: int| 0 <= i < loop_run(s, es).1.len() ==> loop_run(s, es).1[i] is Exit,
        loop_run(s, es).1.len() == es.len(),
    decreases es.len(),
{
    if es.len() > 0 {
        lemma_stopped_stays_stopped(s, es.drop_last());
    }
}

/// The receiving end of the outcome stream, which its owner can take out once.
pub struct ReceiverSlot<R> {
    receiver: Option<R>,
}

impl<R> View for ReceiverSlot<R> {
    type V = Option<R>;

    closed spec fn view(&self) -> Option<R> {
        self.receiver
    }
}

impl<R> ReceiverSlot<R> {
    /// A slot that holds `receiver`.
    pub fn new(receiver: R) -> (r: ReceiverSlot<R>)
        ensures
            r@ == Some(receiver),
    {
        ReceiverSlot { receiver: Some(receiver) }
    }

    /// Whether the receiver is still here.
    pub fn is_available(&self) -> (r: bool)
        ensures
            r == self@ is Some,
    {
        self.receiver.is_some()
    }

    /// The receiver, borrowed in place to await the next outcome. Only while it
    /// has not been taken.
    pub fn receiver_mut(&mut self) -> (r: &mut R)
        requires
            old(self)@ is Some,
        ensures
            *r == old(self)@->Some_0,
            final(self)@ == Some(*final(r)),
    {
        match &mut self.receiver {
            Some(r) => r,
            None => unreached(),
        }
    }

    /// Takes the receiver out for good: afterwards neither this nor
    /// [`receiver_mut`](Self::receiver_mut) may be called.
    pub fn take(&mut self) -> (r: R)
        requires
            old(self)@ is Some,
        ensures
            Some(r) == old(self)@,
            final(self)@ is None,
    {
        self.receiver.take().unwrap()
    }
}

} // verus!
