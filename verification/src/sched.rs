//! Cooperative, run-to-completion task scheduler.
//!
//! One stack, no preemption: each task's [`Task::poll`] runs one short, non-blocking step and
//! returns; [`tick`] calls it again once its next deadline is due. The scheduler is
//! hardware-agnostic: the caller passes its own context `C` and the current monotonic time in
//! milliseconds.
use vstd::prelude::*;

verus! {

/// Wrap-safe "now is at or past due": the unsigned difference lands in the low half of the
/// `u32` range exactly when `now` has reached `due`.
pub open spec fn is_due(now: u32, due: u32) -> bool {
    (vstd::wrapping::u32_specs::wrapping_sub(now, due) as int) < 0x8000_0000
}

/// How late a due task runs (ms past its deadline), wrap-safe.
pub open spec fn lateness(now: u32, due: u32) -> u32 {
    vstd::wrapping::u32_specs::wrapping_sub(now, due)
}

/// The due test is wrap-safe: a deadline `k` ms in the past counts as arrived exactly when
/// `k` is below 2^31, across the `u32` millisecond wrap.
pub proof fn due_is_wrap_safe(due: u32, k: u32)
    ensures
        is_due(vstd::wrapping::u32_specs::wrapping_add(due, k), due) == (k < 0x8000_0000),
{
}

/// A cooperative task over the application context `C`.
pub trait Task<C> {
    /// Run one non-blocking step at time `now`. Returns the delay until the task next wants to
    /// run, or `None` to keep its current period.
    fn poll(&mut self, cx: &mut C, now: u32) -> Option<u32>;

    /// Short label for logging.
    fn name(&self) -> (r: &'static str)
        default_ensures
            r@ == "task"@,
    {
        "task"
    }
}

/// One scheduled task plus its timing state and deadline telemetry.
pub struct Slot<'a, C, T: ?Sized + Task<C> = dyn Task<C>> {
    task: &'a mut T,
    due: u32,
    period: u32,
    runs: u32,
    max_late: u32,
    overruns: u32,
    ctx: core::marker::PhantomData<C>,
}

impl<'a, C, T: ?Sized + Task<C>> Slot<'a, C, T> {
    /// Deadline of the next run.
    pub closed spec fn due_at(&self) -> u32 {
        self.due
    }

    /// Current period (ms).
    pub closed spec fn period_ms(&self) -> u32 {
        self.period
    }

    /// Times the task has run.
    pub closed spec fn run_count(&self) -> u32 {
        self.runs
    }

    /// Worst lateness observed.
    pub closed spec fn worst_late(&self) -> u32 {
        self.max_late
    }

    /// Runs that came more than a full period late.
    pub closed spec fn overrun_count(&self) -> u32 {
        self.overruns
    }

    /// Schedule `task` every `period_ms`; it first runs on the next `tick` (due = 0).
    pub fn every(period_ms: u32, task: &'a mut T) -> (s: Self)
        ensures
            s.due_at() == 0,
            s.period_ms() == period_ms,
            s.run_count() == 0,
            s.worst_late() == 0,
            s.overrun_count() == 0,
    {
        Slot { task, due: 0, period: period_ms, runs: 0, max_late: 0, overruns: 0, ctx: core::marker::PhantomData }
    }

    /// The scheduled task.
    pub closed spec fn task_spec(&self) -> &T {
        &*self.task
    }

    /// The task's label.
    pub fn name(&self) -> (r: &'static str)
        ensures
            call_ensures(T::name, (self.task_spec(),), r),
    {
        self.task.name()
    }

    /// Number of runs so far.
    pub fn runs(&self) -> (r: u32)
        ensures r == self.run_count(),
    {
        self.runs
    }

    /// Worst lateness seen (ms).
    pub fn max_late(&self) -> (r: u32)
        ensures r == self.worst_late(),
    {
        self.max_late
    }

    /// Times the task ran more than a full period late.
    pub fn overruns(&self) -> (r: u32)
        ensures r == self.overrun_count(),
    {
        self.overruns
    }
    /// Telemetry for a run that starts `late` ms after its deadline: count the run, keep the
    /// worst lateness, and count an overrun when it came more than a full period late.
    fn note_run(&mut self, late: u32)
        ensures
            final(self).due == old(self).due,
            final(self).period == old(self).period,
            final(self).task == old(self).task,
            final(self).runs == vstd::wrapping::u32_specs::wrapping_add(old(self).runs, 1),
            final(self).max_late == (if late > old(self).max_late { late } else { old(self).max_late }),
            final(self).overruns == (if late > old(self).period {
                vstd::wrapping::u32_specs::wrapping_add(old(self).overruns, 1)
            } else {
                old(self).overruns
            }),
    {
        self.runs = self.runs.wrapping_add(1);
        if late > self.max_late {
            self.max_late = late;
        }
        if late > self.period {
            self.overruns = self.overruns.wrapping_add(1);
        }
    }

    /// Reschedule after a run at `now`, given what the task's poll returned: `None` keeps the
    /// current period. The next deadline counts from `now` (no catch-up burst).
    pub fn reschedule(&mut self, now: u32, polled: Option<u32>)
        ensures
            final(self).period_ms() == (match polled { Some(p) => p, None => old(self).period_ms() }),
            final(self).due_at() == vstd::wrapping::u32_specs::wrapping_add(now, final(self).period_ms()),
            final(self).run_count() == old(self).run_count(),
            final(self).worst_late() == old(self).worst_late(),
            final(self).overrun_count() == old(self).overrun_count(),
            final(self).task_spec() == old(self).task_spec(),
    {
        let next = match polled {
            Some(p) => p,
            None => self.period,
        };
        self.period = next;
        self.due = now.wrapping_add(next);
    }
}

/// Number of deadlines in `dues` that have arrived at `now`.
pub open spec fn due_count(dues: Seq<u32>, now: u32) -> nat
    decreases dues.len(),
{
    if dues.len() == 0 {
        0
    } else {
        due_count(dues.drop_last(), now) + (if is_due(now, dues.last()) { 1nat } else { 0nat })
    }
}

/// What one pass of [`tick`] does to a slot whose deadline has arrived at `now`: the telemetry
/// is updated against the period that scheduled it, and the next deadline counts from `now`.
pub open spec fn ran_at<'a, C, T: ?Sized + Task<C>>(before: Slot<'a, C, T>, after: Slot<'a, C, T>, now: u32) -> bool {
    let late = lateness(now, before.due_at());
    &&& after.run_count() == vstd::wrapping::u32_specs::wrapping_add(before.run_count(), 1)
    &&& after.worst_late() == (if late > before.worst_late() { late } else { before.worst_late() })
    &&& after.overrun_count() == (if late > before.period_ms() {
        vstd::wrapping::u32_specs::wrapping_add(before.overrun_count(), 1)
    } else {
        before.overrun_count()
    })
    &&& after.due_at() == vstd::wrapping::u32_specs::wrapping_add(now, after.period_ms())
}

/// What one pass of [`tick`] at `now` does to one slot: a due slot runs, any other is untouched.
pub open spec fn slot_ticked<'a, C, T: ?Sized + Task<C>>(before: Slot<'a, C, T>, after: Slot<'a, C, T>, now: u32) -> bool {
    if is_due(now, before.due_at()) {
        ran_at(before, after, now)
    } else {
        after == before
    }
}

/// What one pass of [`tick`] does to one slot, apart from its poll: a due slot's telemetry is
/// updated and it is rescheduled from `now` by the task's answer (`None` keeps the period); a
/// slot not yet due, and the context, are left untouched.
pub open spec fn slot_stepped<'a, C, T: ?Sized + Task<C>>(
    before: Slot<'a, C, T>,
    after: Slot<'a, C, T>,
    cx_before: C,
    cx_after: C,
    now: u32,
    answer: Option<u32>,
) -> bool {
    if is_due(now, before.due_at()) {
        &&& ran_at(before, after, now)
        &&& after.period_ms() == (match answer {
            Some(p) => p,
            None => before.period_ms(),
        })
    } else {
        &&& after == before
        &&& cx_after == cx_before
    }
}

/// A pass of [`tick`] over `before`, leaving `after`, apart from the polls: the slots are taken
/// in index order, the context runs through `cxs` (from `cx0` to `cx1`), and slot `i`'s task
/// answered `answers[i]` if it was polled.
pub open spec fn tick_trace<'a, C, T: ?Sized + Task<C>>(
    before: Seq<Slot<'a, C, T>>,
    after: Seq<Slot<'a, C, T>>,
    cx0: C,
    cx1: C,
    now: u32,
    cxs: Seq<C>,
    answers: Seq<Option<u32>>,
) -> bool {
    &&& after.len() == before.len()
    &&& cxs.len() == before.len() + 1
    &&& answers.len() == before.len()
    &&& cxs[0] == cx0
    &&& cxs[before.len() as int] == cx1
    &&& forall|i: int| 0 <= i < before.len() ==>
        slot_stepped(#[trigger] before[i], after[i], cxs[i], cxs[i + 1], now, answers[i])
}

/// Run every slot whose deadline has arrived at `now`, in order; returns how many ran. A slot
/// that is not yet due is left untouched. In the contract, `cxs` is the context before each slot
/// and after the last, and `answers[i]` is what slot `i`'s task answered: each due task is polled
/// exactly once, in index order, with the context as the earlier polls left it and with `now`,
/// and its slot is rescheduled by that answer.
pub fn tick<C, T: ?Sized + Task<C>>(slots: &mut [Slot<'_, C, T>], cx: &mut C, now: u32) -> (ran: u16)
    requires
        old(slots)@.len() <= u16::MAX,
    ensures
        final(slots)@.len() == old(slots)@.len(),
        ran == due_count(old(slots)@.map_values(|s: Slot<'_, C, T>| s.due_at()), now),
        forall|i: int| 0 <= i < old(slots)@.len() ==> slot_ticked(#[trigger] old(slots)@[i], final(slots)@[i], now),
        exists|cxs: Seq<C>, answers: Seq<Option<u32>>| {
            &&& #[trigger] tick_trace(old(slots)@, final(slots)@, *old(cx), *final(cx), now, cxs, answers)
            &&& forall|i: int| 0 <= i < old(slots)@.len() && is_due(now, #[trigger] old(slots)@[i].due_at()) ==>
                exists|t: &mut T, c: &mut C| {
                    &&& #[trigger] call_ensures(T::poll, (t, c, now), answers[i])
                    &&& &*t == old(slots)@[i].task_spec()
                    &&& &*final(t) == final(slots)@[i].task_spec()
                    &&& *c == cxs[i]
                    &&& *final(c) == cxs[i + 1]
                }
        },
{
    let mut ran: u16 = 0;
    let n = slots.len();
    let mut i: usize = 0;
    let ghost mut cxs: Seq<C> = seq![*cx];
    let ghost mut answers: Seq<Option<u32>> = Seq::empty();
    while i < n
        invariant
            n == slots@.len(),
            n == old(slots)@.len(),
            n <= u16::MAX,
            i <= n,
            ran == due_count(old(slots)@.map_values(|s: Slot<'_, C, T>| s.due_at()).take(i as int), now),
            ran <= i,
            cxs.len() == i + 1,
            answers.len() == i,
            cxs[0] == *old(cx),
            cxs[i as int] == *cx,
            forall|j: int| i <= j < n ==> slots@[j] == old(slots)@[j],
            forall|j: int| 0 <= j < i ==> {
                if is_due(now, #[trigger] old(slots)@[j].due_at()) {
                    ran_at(old(slots)@[j], slots@[j], now)
                } else {
                    slots@[j] == old(slots)@[j]
                }
            },
            forall|j: int| 0 <= j < i ==>
                slot_stepped(#[trigger] old(slots)@[j], slots@[j], cxs[j], cxs[j + 1], now, answers[j]),
            forall|j: int| 0 <= j < i && is_due(now, #[trigger] old(slots)@[j].due_at()) ==>
                exists|t: &mut T, c: &mut C| {
                    &&& #[trigger] call_ensures(T::poll, (t, c, now), answers[j])
                    &&& &*t == old(slots)@[j].task_spec()
                    &&& &*final(t) == slots@[j].task_spec()
                    &&& *c == cxs[j]
                    &&& *final(c) == cxs[j + 1]
                },
        decreases n - i,
    {
        let ghost dues = old(slots)@.map_values(|s: Slot<'_, C, T>| s.due_at());
        assert(dues.take(i + 1).drop_last() =~= dues.take(i as int));
        let ghost slots0 = slots@;
        let ghost answers0 = answers;
        let ghost cxs0 = cxs;
        let ghost cx_before: C = *cx;
        let ghost task_before = old(slots)@[i as int].task_spec();
        let s = &mut slots[i];
        let late = now.wrapping_sub(s.due);
        if late < 0x8000_0000 {
            s.note_run(late);
            assert(s.task_spec() == task_before);
            let polled = s.task.poll(cx, now);
            assert(exists|t: &mut T, c: &mut C| {
                &&& call_ensures(T::poll, (t, c, now), polled)
                &&& &*t == task_before
                &&& &*final(t) == s.task_spec()
                &&& *c == cx_before
                &&& *final(c) == *cx
            });
            s.reschedule(now, polled);
            ran = ran + 1;
            proof {
                answers = answers.push(polled);
            }
        } else {
            proof {
                answers = answers.push(None);
            }
        }
        proof {
            cxs = cxs.push(*cx);
        }
        assert forall|j: int| 0 <= j < i + 1 && is_due(now, #[trigger] old(slots)@[j].due_at()) implies
            exists|t: &mut T, c: &mut C| {
                &&& #[trigger] call_ensures(T::poll, (t, c, now), answers[j])
                &&& &*t == old(slots)@[j].task_spec()
                &&& &*final(t) == slots@[j].task_spec()
                &&& *c == cxs[j]
                &&& *final(c) == cxs[j + 1]
            } by {
            if j < i {
                assert(answers[j] == answers0[j]);
                assert(slots@[j] == slots0[j]);
                assert(cxs[j] == cxs0[j] && cxs[j + 1] == cxs0[j + 1]);
            } else {
                assert(answers[j] == answers.last());
            }
        }
        i = i + 1;
    }
    assert(old(slots)@.map_values(|s: Slot<'_, C, T>| s.due_at()).take(n as int)
        =~= old(slots)@.map_values(|s: Slot<'_, C, T>| s.due_at()));
    assert(tick_trace(old(slots)@, slots@, *old(cx), *cx, now, cxs, answers));
    ran
}

/// A slot's states over a run of ticks: `states[i + 1]` is what the tick at `nows[i]` made of
/// `states[i]`.
pub open spec fn tick_history<'a, C, T: ?Sized + Task<C>>(states: Seq<Slot<'a, C, T>>, nows: Seq<u32>) -> bool {
    &&& states.len() == nows.len() + 1
    &&& forall|i: int| 0 <= i < nows.len() ==> slot_ticked(#[trigger] states[i], states[i + 1], nows[i])
}

/// How many of the first `k` ticks found the slot due.
pub open spec fn due_ticks<'a, C, T: ?Sized + Task<C>>(states: Seq<Slot<'a, C, T>>, nows: Seq<u32>, k: int) -> nat
    decreases k,
{
    if k <= 0 {
        0
    } else {
        due_ticks(states, nows, k - 1) + (if is_due(nows[k - 1], states[k - 1].due_at()) { 1nat } else { 0nat })
    }
}

/// The worst lateness over the first `k` ticks (and what the slot held before them).
pub open spec fn worst_over<'a, C, T: ?Sized + Task<C>>(states: Seq<Slot<'a, C, T>>, nows: Seq<u32>, k: int) -> u32
    decreases k,
{
    if k <= 0 {
        states[0].worst_late()
    } else {
        let m = worst_over(states, nows, k - 1);
        let late = lateness(nows[k - 1], states[k - 1].due_at());
        if is_due(nows[k - 1], states[k - 1].due_at()) && late > m { late } else { m }
    }
}

proof fn lemma_due_ticks_monotone<'a, C, T: ?Sized + Task<C>>(states: Seq<Slot<'a, C, T>>, nows: Seq<u32>, k: int, m: int)
    requires
        0 <= k <= m,
    ensures
        due_ticks(states, nows, k) <= due_ticks(states, nows, m),
    decreases m - k,
{
    if k < m {
        lemma_due_ticks_monotone(states, nows, k, m - 1);
    }
}

/// Over a run of ticks, the worst lateness is the largest lateness of the runs among them (or
/// what it was before), so it never decreases from one tick to the next.
pub proof fn worst_late_over_ticks<'a, C, T: ?Sized + Task<C>>(states: Seq<Slot<'a, C, T>>, nows: Seq<u32>, k: int)
    requires
        tick_history(states, nows),
        0 <= k <= nows.len(),
    ensures
        states[k].worst_late() == worst_over(states, nows, k),
        states[k].worst_late() >= states[0].worst_late(),
        k < nows.len() ==> states[k + 1].worst_late() >= states[k].worst_late(),
    decreases k,
{
    if k > 0 {
        worst_late_over_ticks(states, nows, k - 1);
        assert(slot_ticked(states[k - 1], states[k], nows[k - 1]));
    }
    if k < nows.len() {
        assert(slot_ticked(states[k], states[k + 1], nows[k]));
    }
}

/// Over a run of ticks, the run count grows by exactly the number of ticks that found the slot
/// due (as long as the count of runs does not wrap).
pub proof fn runs_over_ticks<'a, C, T: ?Sized + Task<C>>(states: Seq<Slot<'a, C, T>>, nows: Seq<u32>, k: int)
    requires
        tick_history(states, nows),
        0 <= k <= nows.len(),
        states[0].run_count() + due_ticks(states, nows, nows.len() as int) <= u32::MAX,
    ensures
        states[k].run_count() == states[0].run_count() + due_ticks(states, nows, k),
    decreases k,
{
    if k > 0 {
        runs_over_ticks(states, nows, k - 1);
        lemma_due_ticks_monotone(states, nows, k, nows.len() as int);
        assert(slot_ticked(states[k - 1], states[k], nows[k - 1]));
    }
}

/// How many of the first `k` ticks found the slot due and more than its period late (the period
/// in force before that tick's poll).
pub open spec fn overrun_ticks<'a, C, T: ?Sized + Task<C>>(states: Seq<Slot<'a, C, T>>, nows: Seq<u32>, k: int) -> nat
    decreases k,
{
    if k <= 0 {
        0
    } else {
        let due = states[k - 1].due_at();
        overrun_ticks(states, nows, k - 1) + (if is_due(nows[k - 1], due)
            && lateness(nows[k - 1], due) > states[k - 1].period_ms() { 1nat } else { 0nat })
    }
}

proof fn lemma_overrun_ticks_monotone<'a, C, T: ?Sized + Task<C>>(states: Seq<Slot<'a, C, T>>, nows: Seq<u32>, k: int, m: int)
    requires
        0 <= k <= m,
    ensures
        overrun_ticks(states, nows, k) <= overrun_ticks(states, nows, m),
    decreases m - k,
{
    if k < m {
        lemma_overrun_ticks_monotone(states, nows, k, m - 1);
    }
}

/// Over a run of ticks, the overrun count grows by exactly the number of runs that came more than
/// a period late, each measured against the period in force before that run (as long as the
/// count of overruns does not wrap).
pub proof fn overruns_over_ticks<'a, C, T: ?Sized + Task<C>>(states: Seq<Slot<'a, C, T>>, nows: Seq<u32>, k: int)
    requires
        tick_history(states, nows),
        0 <= k <= nows.len(),
        states[0].overrun_count() + overrun_ticks(states, nows, nows.len() as int) <= u32::MAX,
    ensures
        states[k].overrun_count() == states[0].overrun_count() + overrun_ticks(states, nows, k),
    decreases k,
{
    if k > 0 {
        overruns_over_ticks(states, nows, k - 1);
        lemma_overrun_ticks_monotone(states, nows, k, nows.len() as int);
        assert(slot_ticked(states[k - 1], states[k], nows[k - 1]));
    }
}

/// Overruns never outnumber runs: a run that came more than a period late is counted once as a
/// run and once as an overrun (as long as the count of runs does not wrap).
pub proof fn overruns_never_exceed_runs<'a, C, T: ?Sized + Task<C>>(states: Seq<Slot<'a, C, T>>, nows: Seq<u32>, k: int)
    requires
        tick_history(states, nows),
        0 <= k <= nows.len(),
        states[0].overrun_count() <= states[0].run_count(),
        states[0].run_count() + due_ticks(states, nows, nows.len() as int) <= u32::MAX,
    ensures
        states[k].overrun_count() <= states[k].run_count(),
    decreases k,
{
    if k > 0 {
        overruns_never_exceed_runs(states, nows, k - 1);
        runs_over_ticks(states, nows, k - 1);
        runs_over_ticks(states, nows, k);
        assert(slot_ticked(states[k - 1], states[k], nows[k - 1]));
    }
}

} // verus!
