//! Pacing of the runtime loop and coalescing of queued runtime commands.

use std::sync::mpsc::Receiver;
use std::time::Duration;
use vstd::prelude::*;

verus! {

/// What `Duration::as_nanos` gives for a duration: its total length in
/// nanoseconds.
pub uninterp spec fn std_duration_as_nanos(d: Duration) -> u128;

/// Calls `Duration::from_nanos`: a duration of exactly `nanos` nanoseconds.
#[verifier::external_body]
fn duration_from_nanos(nanos: u64) -> (d: Duration)
    ensures
        std_duration_as_nanos(d) == nanos,
{
    Duration::from_nanos(nanos)
}

/// Calls `Duration::saturating_sub`: the difference, or zero when `b` is the
/// longer one.
#[verifier::external_body]
fn duration_saturating_sub(a: Duration, b: Duration) -> (d: Duration)
    ensures
        std_duration_as_nanos(d) == (if std_duration_as_nanos(a) >= std_duration_as_nanos(b) {
            std_duration_as_nanos(a) - std_duration_as_nanos(b)
        } else {
            0
        }),
{
    a.saturating_sub(b)
}

/// Length of one frame in nanoseconds; a rate of zero counts as one frame
/// per second.
pub open spec fn frame_period_nanos(camera_fps: u32) -> u64 {
    (1_000_000_000u64 / (if camera_fps == 0 { 1u64 } else { camera_fps as u64 })) as u64
}

/// What is left of one frame period after `elapsed_nanos`; never below zero.
pub open spec fn sleep_nanos(camera_fps: u32, elapsed_nanos: u128) -> u128 {
    if frame_period_nanos(camera_fps) >= elapsed_nanos {
        (frame_period_nanos(camera_fps) - elapsed_nanos) as u128
    } else {
        0
    }
}

/// Time between two runtime frames at the configured camera rate.
pub fn runtime_frame_period(camera_fps: u32) -> (d: Duration)
    ensures
        std_duration_as_nanos(d) == frame_period_nanos(camera_fps),
{
    let fps: u64 = if camera_fps == 0 { 1 } else { camera_fps as u64 };
    duration_from_nanos(1_000_000_000u64 / fps)
}

/// Time left to sleep in the current frame once `elapsed` has been spent.
pub fn runtime_sleep_duration(camera_fps: u32, elapsed: Duration) -> (d: Duration)
    ensures
        std_duration_as_nanos(d) == sleep_nanos(camera_fps, std_duration_as_nanos(elapsed)),
{
    duration_saturating_sub(runtime_frame_period(camera_fps), elapsed)
}

/// A command for the runtime thread; `S` is the settings snapshot.
#[derive(Debug, Clone)]
pub enum RuntimeCommand<S> {
    Start,
    Stop,
    Pause,
    Resume,
    UpdateSettings(S),
}

/// One step of draining queued commands behind a settings update.
#[derive(Debug, Clone)]
pub enum CoalesceStep<S> {
    /// Keep draining: the latest settings and how many updates were merged.
    Continue(S, usize),
    /// Done: the command to run, a command that must run after it, and how
    /// many queued settings updates were merged into the first.
    Done(RuntimeCommand<S>, Option<RuntimeCommand<S>>, usize),
}

pub open spec fn coalesce_start_spec<S>(cmd: RuntimeCommand<S>) -> CoalesceStep<S> {
    match cmd {
        RuntimeCommand::UpdateSettings(s) => CoalesceStep::Continue(s, 0),
        other => CoalesceStep::Done(other, None, 0),
    }
}

pub open spec fn coalesce_next_spec<S>(
    latest: S,
    coalesced: usize,
    next: Option<RuntimeCommand<S>>,
) -> CoalesceStep<S> {
    match next {
        None => CoalesceStep::Done(RuntimeCommand::UpdateSettings(latest), None, coalesced),
        Some(RuntimeCommand::UpdateSettings(s)) => CoalesceStep::Continue(s, (coalesced + 1) as usize),
        Some(other) => CoalesceStep::Done(RuntimeCommand::UpdateSettings(latest), Some(other), coalesced),
    }
}

/// Begins coalescing with the command just received: only a settings update
/// goes on to absorb the updates queued behind it.
pub fn coalesce_start<S>(cmd: RuntimeCommand<S>) -> (step: CoalesceStep<S>)
    ensures
        step == coalesce_start_spec(cmd),
{
    match cmd {
        RuntimeCommand::UpdateSettings(s) => CoalesceStep::Continue(s, 0),
        other => CoalesceStep::Done(other, None, 0),
    }
}

/// Absorbs the next queued command (`None` when the queue is empty): a
/// further settings update replaces the latest one; anything else ends the
/// drain and is kept to run next.
pub fn coalesce_next<S>(latest: S, coalesced: usize, next: Option<RuntimeCommand<S>>) -> (step:
    CoalesceStep<S>)
    requires
        coalesced < usize::MAX,
    ensures
        step == coalesce_next_spec(latest, coalesced, next),
{
    match next {
        None => CoalesceStep::Done(RuntimeCommand::UpdateSettings(latest), None, coalesced),
        Some(RuntimeCommand::UpdateSettings(s)) => CoalesceStep::Continue(s, coalesced + 1),
        Some(other) => CoalesceStep::Done(RuntimeCommand::UpdateSettings(latest), Some(other), coalesced),
    }
}

/// Draining a queue: the result of feeding `queue` (then an empty queue) to
/// the steps, starting from `latest` with `coalesced` merged updates.
pub open spec fn coalesce_run<S>(latest: S, coalesced: nat, queue: Seq<RuntimeCommand<S>>) -> (
    RuntimeCommand<S>,
    Option<RuntimeCommand<S>>,
    nat,
)
    decreases queue.len(),
{
    if queue.len() == 0 {
        (RuntimeCommand::UpdateSettings(latest), None, coalesced)
    } else {
        match queue[0] {
            RuntimeCommand::UpdateSettings(s) => coalesce_run(s, coalesced + 1, queue.drop_first()),
            other => (RuntimeCommand::UpdateSettings(latest), Some(other), coalesced),
        }
    }
}

/// Number of settings updates at the head of `queue`.
pub open spec fn leading_updates<S>(queue: Seq<RuntimeCommand<S>>) -> nat
    decreases queue.len(),
{
    if queue.len() > 0 && queue[0] is UpdateSettings {
        1 + leading_updates(queue.drop_first())
    } else {
        0
    }
}

/// Coalescing merges exactly the run of settings updates queued behind the
/// first one: the last of them wins, they are all counted, and the first
/// other command is handed back to run next, its successors left queued.
pub proof fn lemma_coalesce_keeps_last_update<S>(latest: S, coalesced: nat, queue: Seq<RuntimeCommand<S>>)
    ensures
        ({
            let (cmd, pending, count) = coalesce_run(latest, coalesced, queue);
            let k = leading_updates(queue);
            &&& k <= queue.len()
            &&& count == coalesced + k
            &&& forall|i: int| 0 <= i < k ==> queue[i] is UpdateSettings
            &&& cmd == RuntimeCommand::UpdateSettings(
                if k == 0 { latest } else { queue[k - 1]->UpdateSettings_0 },
            )
            &&& pending == (if k < queue.len() { Some(queue[k as int]) } else { None })
        }),
    decreases queue.len(),
{
    if queue.len() > 0 {
        if let RuntimeCommand::UpdateSettings(s) = queue[0] {
            lemma_coalesce_keeps_last_update(s, coalesced + 1, queue.drop_first());
            let k1 = leading_updates(queue.drop_first());
            assert forall|i: int| 0 <= i < k1 + 1 implies queue[i] is UpdateSettings by {
                if i > 0 {
                    assert(queue[i] == queue.drop_first()[i - 1]);
                }
            }
            if k1 > 0 {
                assert(queue[k1 as int] == queue.drop_first()[k1 - 1]);
            }
            if k1 + 1 < queue.len() {
                assert(queue[k1 + 1int] == queue.drop_first()[k1 as int]);
            }
        }
    }
}


#[verifier::external_type_specification]
#[verifier::external_body]
#[verifier::reject_recursive_types(T)]
pub struct ExReceiver<T>(Receiver<T>);

/// Calls `Receiver::try_recv`: a message already queued on the channel, or
/// `None` when the queue is empty or every sender is gone. Which of these comes
/// back depends on other threads, so nothing is stated of it.
#[verifier::external_body]
fn receiver_try_recv<T>(rx: &Receiver<T>) -> Option<T> {
    rx.try_recv().ok()
}

/// One more settings update drained from the queue: draining `drained` and
/// then `u` is draining `drained` and continuing from `u`.
proof fn lemma_coalesce_run_after_update<S>(
    first: S,
    drained: Seq<RuntimeCommand<S>>,
    latest: S,
    count: nat,
    s: S,
)
    requires
        forall|rest: Seq<RuntimeCommand<S>>|
            #[trigger] coalesce_run(first, 0, drained + rest) == coalesce_run(latest, count, rest),
    ensures
        forall|rest: Seq<RuntimeCommand<S>>|
            #[trigger] coalesce_run(first, 0, drained.push(RuntimeCommand::UpdateSettings(s)) + rest)
                == coalesce_run(s, count + 1, rest),
{
    let u = RuntimeCommand::UpdateSettings(s);
    assert forall|rest: Seq<RuntimeCommand<S>>|
        #[trigger] coalesce_run(first, 0, drained.push(u) + rest) == coalesce_run(s, count + 1, rest) by {
        let tail = seq![u] + rest;
        assert(drained.push(u) + rest =~= drained + tail);
        assert(tail.drop_first() =~= rest);
        assert(coalesce_run(first, 0, drained + tail) == coalesce_run(latest, count, tail));
    }
}

/// Takes the command just received from `rx`; when it is a settings update,
/// also takes every settings update queued right behind it and keeps the last.
/// Returns the command to run, the first queued command that is not a
/// settings update (to run next, its successors left queued), and how many
/// queued updates were merged. Whatever the channel holds, the result is what
/// draining some queue of commands gives.
pub fn coalesce_runtime_command<S>(rx: &Receiver<RuntimeCommand<S>>, cmd: RuntimeCommand<S>) -> (r: (
    RuntimeCommand<S>,
    Option<RuntimeCommand<S>>,
    usize,
))
    ensures
        cmd is UpdateSettings ==> exists|queue: Seq<RuntimeCommand<S>>|
            (r.0, r.1, r.2 as nat) == #[trigger] coalesce_run(cmd->UpdateSettings_0, 0, queue),
        !(cmd is UpdateSettings) ==> r.0 == cmd && r.1 is None && r.2 == 0,
{
    let (mut latest, mut coalesced) = match coalesce_start(cmd) {
        CoalesceStep::Continue(s, c) => (s, c),
        CoalesceStep::Done(c, pending, n) => return (c, pending, n),
    };
    let ghost first = latest;
    let ghost mut drained: Seq<RuntimeCommand<S>> = Seq::empty();
    assert forall|rest: Seq<RuntimeCommand<S>>|
        #[trigger] coalesce_run(first, 0, drained + rest) == coalesce_run(latest, coalesced as nat, rest) by {
        assert(drained + rest =~= rest);
    }
    loop
        invariant
            cmd == RuntimeCommand::UpdateSettings(first),
            coalesced == drained.len(),
            forall|rest: Seq<RuntimeCommand<S>>|
                #[trigger] coalesce_run(first, 0, drained + rest)
                    == coalesce_run(latest, coalesced as nat, rest),
        decreases usize::MAX - coalesced,
    {
        if coalesced == usize::MAX {
            let ghost g_latest = latest;
            let r = (RuntimeCommand::UpdateSettings(latest), None, coalesced);
            proof {
                let empty = Seq::<RuntimeCommand<S>>::empty();
                assert(coalesce_run(first, 0, drained + empty) == coalesce_run(
                    g_latest,
                    coalesced as nat,
                    empty,
                ));
                assert((r.0, r.1, r.2 as nat) == coalesce_run(cmd->UpdateSettings_0, 0, drained + empty));
                assert(exists|queue: Seq<RuntimeCommand<S>>|
                    (r.0, r.1, r.2 as nat) == #[trigger] coalesce_run(cmd->UpdateSettings_0, 0, queue));
            }
            return r;
        }
        let next = receiver_try_recv(rx);
        let ghost g_latest = latest;
        let ghost g_next = next;
        match coalesce_next(latest, coalesced, next) {
            CoalesceStep::Continue(s, c) => {
                proof {
                    let u = g_next.unwrap();
                    lemma_coalesce_run_after_update(first, drained, g_latest, coalesced as nat, s);
                    drained = drained.push(u);
                }
                latest = s;
                coalesced = c;
            },
            CoalesceStep::Done(c, pending, n) => {
                proof {
                    let q: Seq<RuntimeCommand<S>> = match g_next {
                        Some(other) => seq![other],
                        None => Seq::empty(),
                    };
                    assert(coalesce_run(first, 0, drained + q) == coalesce_run(
                        g_latest,
                        coalesced as nat,
                        q,
                    ));
                    if let Some(other) = g_next {
                        assert(q[0] == other);
                        assert(q.len() == 1);
                    }
                    assert((c, pending, n as nat) == coalesce_run(cmd->UpdateSettings_0, 0, drained + q));
                    assert(exists|queue: Seq<RuntimeCommand<S>>|
                        (c, pending, n as nat) == #[trigger] coalesce_run(cmd->UpdateSettings_0, 0, queue));
                }
                return (c, pending, n);
            },
        }
    }
}


/// Lines written to the event dump between two flushes.
pub const FLUSH_EVERY_LINES: usize = 32;

/// Lines written to the event dump since its last flush.
#[derive(Debug, Clone, Copy, PartialEq, Eq, Structural)]
pub struct FlushCounter {
    pub pending_lines: usize,
}

impl FlushCounter {
    pub fn new() -> (c: FlushCounter)
        ensures
            c.pending_lines == 0,
    {
        FlushCounter { pending_lines: 0 }
    }

    /// Counts a written line; true when the dump must be flushed now.
    pub fn record_line(&mut self) -> (flush_now: bool)
        requires
            old(self).pending_lines < usize::MAX,
        ensures
            final(self).pending_lines == old(self).pending_lines + 1,
            flush_now == (final(self).pending_lines >= FLUSH_EVERY_LINES),
    {
        self.pending_lines = self.pending_lines + 1;
        self.pending_lines >= FLUSH_EVERY_LINES
    }

    /// Whether anything awaits a flush.
    pub fn has_pending(&self) -> (p: bool)
        ensures
            p == (self.pending_lines != 0),
    {
        self.pending_lines != 0
    }

    /// Records a flush.
    pub fn mark_flushed(&mut self)
        ensures
            final(self).pending_lines == 0,
    {
        self.pending_lines = 0;
    }
}

} // verus!
