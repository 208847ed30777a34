//! The countdown clock of one phase.
//!
//! The clock holds plain state; a background ticker advances it by calling
//! [`Timer::tick`] after each sleep for as long as [`Timer::is_running`]
//! holds. Elapsed time is visible in whole seconds, while the milliseconds
//! that do not yet make up a second are carried in a buffer, so that a pause
//! in the middle of a second loses nothing.
use vstd::prelude::*;

verus! {

/// Milliseconds in one second.
pub const MILLIS_PER_SEC: u64 = 1000;

/// The abstract state of a [`Timer`].
pub struct ClockState {
    /// Target duration in seconds; fixed at creation.
    pub duration: nat,
    /// Elapsed time in whole seconds.
    pub elapsed: nat,
    /// Milliseconds accumulated towards the next whole second.
    pub buffer_ms: nat,
    pub paused: bool,
    pub terminated: bool,
}

/// One operation on a clock, for stating what a sequence of calls does.
pub enum ClockOp {
    Pause,
    Resume,
    Stop,
    Skip(nat),
    Tick(nat),
}

impl ClockState {
    pub open spec fn wf(self) -> bool {
        self.buffer_ms < MILLIS_PER_SEC
    }

    /// The background ticker keeps going while this holds.
    pub open spec fn running(self) -> bool {
        !self.terminated && self.elapsed < self.duration
    }

    pub open spec fn finished(self) -> bool {
        self.elapsed >= self.duration
    }

    pub open spec fn pause(self) -> ClockState {
        ClockState { paused: true, ..self }
    }

    pub open spec fn resume(self) -> ClockState {
        ClockState { paused: false, ..self }
    }

    pub open spec fn stop(self) -> ClockState {
        ClockState { terminated: true, ..self }
    }

    pub open spec fn skip(self, secs: nat) -> ClockState {
        ClockState { elapsed: self.elapsed + secs, ..self }
    }

    /// `delta_ms` milliseconds of wall time pass: counted only while running
    /// and not paused, whole seconds moving from the buffer to `elapsed`.
    pub open spec fn tick(self, delta_ms: nat) -> ClockState {
        if self.running() && !self.paused {
            let total = self.buffer_ms + delta_ms;
            ClockState {
                elapsed: self.elapsed + total / (MILLIS_PER_SEC as nat),
                buffer_ms: total % (MILLIS_PER_SEC as nat),
                ..self
            }
        } else {
            self
        }
    }

    pub open spec fn apply(self, op: ClockOp) -> ClockState {
        match op {
            ClockOp::Pause => self.pause(),
            ClockOp::Resume => self.resume(),
            ClockOp::Stop => self.stop(),
            ClockOp::Skip(secs) => self.skip(secs),
            ClockOp::Tick(ms) => self.tick(ms),
        }
    }

    /// The state after applying `ops` in order.
    pub open spec fn run(self, ops: Seq<ClockOp>) -> ClockState
        decreases ops.len(),
    {
        if ops.len() == 0 {
            self
        } else {
            self.run(ops.drop_last()).apply(ops.last())
        }
    }
}

/// A countdown clock for one phase.
pub struct Timer {
    duration: u64,
    elapsed_time: u64,
    time_buffer: u64,
    paused: bool,
    should_terminate: bool,
}

impl View for Timer {
    type V = ClockState;

    closed spec fn view(&self) -> ClockState {
        ClockState {
            duration: self.duration as nat,
            elapsed: self.elapsed_time as nat,
            buffer_ms: self.time_buffer as nat,
            paused: self.paused,
            terminated: self.should_terminate,
        }
    }
}

impl Timer {
    #[verifier::type_invariant]
    spec fn inv(self) -> bool {
        self.time_buffer < MILLIS_PER_SEC
    }

    /// A clock for `duration_secs` seconds: nothing elapsed, not paused,
    /// not stopped.
    pub fn new(duration_secs: u64) -> (r: Timer)
        ensures
            r@ == (ClockState {
                duration: duration_secs as nat,
                elapsed: 0,
                buffer_ms: 0,
                paused: false,
                terminated: false,
            }),
    {
        Timer {
            duration: duration_secs,
            elapsed_time: 0,
            time_buffer: 0,
            paused: false,
            should_terminate: false,
        }
    }

    /// Stops counting until [`Timer::resume`]; elapsed time is unchanged.
    pub fn pause(&mut self)
        ensures
            final(self)@ == old(self)@.pause(),
            final(self)@.wf(),
    {
        proof {
            use_type_invariant(&*self);
        }
        self.paused = true;
    }

    /// Counts again after [`Timer::pause`].
    pub fn resume(&mut self)
        ensures
            final(self)@ == old(self)@.resume(),
            final(self)@.wf(),
    {
        proof {
            use_type_invariant(&*self);
        }
        self.paused = false;
    }

    pub fn is_paused(&self) -> (r: bool)
        ensures
            r == self@.paused,
            self@.wf(),
    {
        proof {
            use_type_invariant(self);
        }
        self.paused
    }

    /// Signals the ticker to end: from now on [`Timer::is_running`] is false
    /// and ticks count nothing. Calling it again changes nothing.
    pub fn stop(&mut self)
        ensures
            final(self)@ == old(self)@.stop(),
            final(self)@.wf(),
    {
        proof {
            use_type_invariant(&*self);
        }
        self.should_terminate = true;
    }

    /// Adds `secs` seconds to the elapsed time at once, paused or not.
    pub fn skip(&mut self, secs: u64)
        requires
            old(self)@.elapsed + secs <= u64::MAX,
        ensures
            final(self)@ == old(self)@.skip(secs as nat),
            final(self)@.elapsed == old(self)@.elapsed + secs,
            final(self)@.wf(),
    {
        proof {
            use_type_invariant(&*self);
        }
        self.elapsed_time = self.elapsed_time + secs;
    }

    /// Elapsed time in whole seconds.
    pub fn get_elapsed_time(&self) -> (r: u64)
        ensures
            r == self@.elapsed,
            self@.wf(),
    {
        proof {
            use_type_invariant(self);
        }
        self.elapsed_time
    }

    /// Whether the ticker should go on: not stopped, and the target
    /// duration not yet reached.
    pub fn is_running(&self) -> (r: bool)
        ensures
            r == self@.running(),
            self@.wf(),
    {
        proof {
            use_type_invariant(self);
        }
        !self.should_terminate && self.elapsed_time < self.duration
    }

    /// Whether the elapsed time has reached the target duration.
    pub fn is_finished(&self) -> (r: bool)
        ensures
            r == self@.finished(),
            self@.wf(),
    {
        proof {
            use_type_invariant(self);
        }
        self.elapsed_time >= self.duration
    }

    /// One wake-up of the ticker after sleeping `delta_ms` milliseconds.
    pub fn tick(&mut self, delta_ms: u32)
        requires
            old(self)@.duration + delta_ms / 1000 <= u64::MAX,
        ensures
            final(self)@ == old(self)@.tick(delta_ms as nat),
            final(self)@.wf(),
    {
        proof {
            use_type_invariant(&*self);
        }
        if !self.should_terminate && self.elapsed_time < self.duration && !self.paused {
            let total: u64 = self.time_buffer + delta_ms as u64;
            assert(total / 1000 <= delta_ms / 1000 + 1) by (nonlinear_arith)
                requires
                    total == self.time_buffer + delta_ms,
                    self.time_buffer < 1000,
            ;
            self.elapsed_time = self.elapsed_time + total / MILLIS_PER_SEC;
            self.time_buffer = total % MILLIS_PER_SEC;
        }
    }
}

/// No operation of `ops` is a skip, and no tick is longer than `max_tick_ms`.
pub open spec fn plain_ops(ops: Seq<ClockOp>, max_tick_ms: nat) -> bool {
    forall|i: int|
        0 <= i < ops.len() ==> match #[trigger] ops[i] {
            ClockOp::Skip(_) => false,
            ClockOp::Tick(ms) => ms <= max_tick_ms,
            _ => true,
        }
}

/// Elapsed time is at most the target duration plus `max_tick_ms`.
pub open spec fn within_one_tick(s: ClockState, max_tick_ms: nat) -> bool {
    s.elapsed * 1000 <= s.duration * 1000 + max_tick_ms
}

proof fn lemma_run_append(s: ClockState, a: Seq<ClockOp>, b: Seq<ClockOp>)
    ensures
        s.run(a + b) == s.run(a).run(b),
    decreases b.len(),
{
    if b.len() == 0 {
        assert(a + b =~= a);
    } else {
        lemma_run_append(s, a, b.drop_last());
        assert((a + b).drop_last() =~= a + b.drop_last());
        assert((a + b).last() == b.last());
    }
}

proof fn lemma_plain_run(s: ClockState, ops: Seq<ClockOp>, max_tick_ms: nat)
    requires
        s.wf(),
        plain_ops(ops, max_tick_ms),
    ensures
        s.run(ops).wf(),
        within_one_tick(s, max_tick_ms) ==> within_one_tick(s.run(ops), max_tick_ms),
        s.run(ops).duration == s.duration,
        s.elapsed <= s.run(ops).elapsed,
    decreases ops.len(),
{
    if ops.len() > 0 {
        let init = ops.drop_last();
        assert forall|i: int| 0 <= i < init.len() implies match #[trigger] init[i] {
            ClockOp::Skip(_) => false,
            ClockOp::Tick(ms) => ms <= max_tick_ms,
            _ => true,
        } by {
            assert(init[i] == ops[i]);
        }
        lemma_plain_run(s, init, max_tick_ms);
        let t = s.run(init);
        let op = ops.last();
        assert(op == ops[ops.len() - 1]);
        if let ClockOp::Tick(ms) = op {
            if t.running() && !t.paused {
                let total = t.buffer_ms + ms;
                assert(total / 1000 * 1000 <= total) by (nonlinear_arith);
                assert(total % 1000 < 1000) by (nonlinear_arith);
            }
        }
    }
}

/// Without skips, elapsed time never decreases from one call to the next;
/// and from a state within the bound, such as a new clock, it never passes
/// the target duration by more than the longest tick.
pub proof fn lemma_elapsed_monotonic(s: ClockState, ops: Seq<ClockOp>, max_tick_ms: nat)
    requires
        s.wf(),
        plain_ops(ops, max_tick_ms),
    ensures
        forall|i: int, j: int|
            0 <= i <= j <= ops.len() ==> #[trigger] s.run(ops.take(i)).elapsed <= #[trigger] s.run(
                ops.take(j),
            ).elapsed,
        within_one_tick(s, max_tick_ms) ==> forall|i: int|
            0 <= i <= ops.len() ==> within_one_tick(#[trigger] s.run(ops.take(i)), max_tick_ms),
{
    assert forall|i: int| 0 <= i <= ops.len() implies (within_one_tick(s, max_tick_ms)
        ==> within_one_tick(#[trigger] s.run(ops.take(i)), max_tick_ms)) && s.run(
        ops.take(i),
    ).wf() by {
        assert forall|k: int| 0 <= k < ops.take(i).len() implies match #[trigger] ops.take(i)[k] {
            ClockOp::Skip(_) => false,
            ClockOp::Tick(ms) => ms <= max_tick_ms,
            _ => true,
        } by {
            assert(ops.take(i)[k] == ops[k]);
        }
        lemma_plain_run(s, ops.take(i), max_tick_ms);
    }
    assert forall|i: int, j: int| 0 <= i <= j <= ops.len() implies #[trigger] s.run(
        ops.take(i),
    ).elapsed <= #[trigger] s.run(ops.take(j)).elapsed by {
        let a = ops.take(i);
        let b = ops.subrange(i, j);
        assert(ops.take(j) =~= a + b);
        lemma_run_append(s, a, b);
        assert(s.run(a).wf());
        assert forall|k: int| 0 <= k < b.len() implies match #[trigger] b[k] {
            ClockOp::Skip(_) => false,
            ClockOp::Tick(ms) => ms <= max_tick_ms,
            _ => true,
        } by {
            assert(b[k] == ops[i + k]);
        }
        lemma_plain_run(s.run(a), b, max_tick_ms);
    }
}

/// Once paused, elapsed time stays where it was until a resume or a skip.
pub proof fn lemma_pause_freezes(s: ClockState, ops: Seq<ClockOp>)
    requires
        forall|i: int|
            0 <= i < ops.len() ==> !(#[trigger] ops[i] is Resume) && !(ops[i] is Skip),
    ensures
        s.pause().run(ops).elapsed == s.elapsed,
        s.pause().run(ops).paused,
    decreases ops.len(),
{
    if ops.len() > 0 {
        let init = ops.drop_last();
        assert forall|i: int| 0 <= i < init.len() implies !(#[trigger] init[i] is Resume) && !(
        init[i] is Skip) by {
            assert(init[i] == ops[i]);
        }
        lemma_pause_freezes(s, init);
        assert(ops.last() == ops[ops.len() - 1]);
    }
}

/// Once stopped, a clock stays stopped: the ticker sees it is no longer
/// running, and no tick counts again; only skips still move elapsed time.
pub proof fn lemma_stop_is_final(s: ClockState, ops: Seq<ClockOp>)
    requires
        forall|i: int| 0 <= i < ops.len() ==> !(#[trigger] ops[i] is Skip),
    ensures
        s.stop().run(ops).terminated,
        !s.stop().run(ops).running(),
        s.stop().run(ops).elapsed == s.elapsed,
    decreases ops.len(),
{
    if ops.len() > 0 {
        let init = ops.drop_last();
        assert forall|i: int| 0 <= i < init.len() implies !(#[trigger] init[i] is Skip) by {
            assert(init[i] == ops[i]);
        }
        lemma_stop_is_final(s, init);
        assert(ops.last() == ops[ops.len() - 1]);
    }
}

} // verus!
