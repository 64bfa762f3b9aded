//! A stackless-coroutine executor.
use vstd::prelude::*;
use std::collections::VecDeque;

verus! {

/// Scheduling state of a coroutine's task.
#[derive(Clone, Copy, Debug, PartialEq, Eq, Structural)]
pub enum State {
    Halted,
    Running,
}

/// Outcome of polling a future.
#[derive(Clone, Copy, Debug, PartialEq, Eq, Structural)]
pub enum Poll {
    Ready,
    Pending,
}

/// The task handed to a coroutine body.
pub struct Task {
    pub state: State,
}

impl Task {
    /// A future that suspends the task once before completing.
    pub fn waiter<'a>(&'a mut self) -> (w: Waiter<'a>)
        ensures
            *w.task == *old(self),
            *final(self) == *final(w.task),
    {
        Waiter { task: self }
    }
}

/// Future that yields once: see `poll`.
pub struct Waiter<'a> {
    pub task: &'a mut Task,
}

impl<'a> Waiter<'a> {
    pub fn poll(&mut self) -> (p: Poll)
        ensures
            old(self).task.state == State::Halted ==> p == Poll::Ready && final(self).task.state == State::Running,
            old(self).task.state == State::Running ==> p == Poll::Pending && final(self).task.state == State::Halted,
            *final(old(self).task) == *final(final(self).task),
    {
        match self.task.state {
            State::Halted => {
                self.task.state = State::Running;
                Poll::Ready
            },
            State::Running => {
                self.task.state = State::Halted;
                Poll::Pending
            },
        }
    }
}

/// A line that a coroutine body prints, by the body's instance number.
#[derive(Clone, Copy, Debug, PartialEq, Eq, Structural)]
pub enum Event {
    /// "Task {}: begin state"
    Begin(i32),
    /// "Task {}: next state"
    Next(i32),
    /// "Task {}: end state"
    End(i32),
}

/// Where a coroutine body stands: before its first statement, suspended at
/// its first or second `await`, or returned.
#[derive(Clone, Copy, Debug, PartialEq, Eq, Structural)]
pub enum Stage {
    Start,
    FirstAwait,
    SecondAwait,
    Done,
}

/// The state machine of the coroutine body
/// `{ begin; task.waiter().await; next; task.waiter().await; end }`.
pub struct Coroutine {
    instance: i32,
    task: Task,
    stage: Stage,
}

/// One poll of a waiter on a task in state `s`: the poll's result and the task's new state.
pub open spec fn waiter_step(s: State) -> (Poll, State) {
    match s {
        State::Halted => (Poll::Ready, State::Running),
        State::Running => (Poll::Pending, State::Halted),
    }
}

/// Resuming the body at its second `await` with the task in state `s`:
/// the poll's result, the task's new state, the new stage and the lines printed.
pub open spec fn resume_second(instance: i32, s: State) -> (Poll, State, Stage, Seq<Event>) {
    let (p, s2) = waiter_step(s);
    if p == Poll::Ready {
        (Poll::Ready, s2, Stage::Done, seq![Event::End(instance)])
    } else {
        (Poll::Pending, s2, Stage::SecondAwait, Seq::empty())
    }
}

/// Resuming the body at its first `await` with the task in state `s`.
pub open spec fn resume_first(instance: i32, s: State) -> (Poll, State, Stage, Seq<Event>) {
    let (p, s2) = waiter_step(s);
    if p == Poll::Ready {
        let r = resume_second(instance, s2);
        (r.0, r.1, r.2, seq![Event::Next(instance)] + r.3)
    } else {
        (Poll::Pending, s2, Stage::FirstAwait, Seq::empty())
    }
}

/// One poll of a body with the given instance, task state and stage.
pub open spec fn resume(instance: i32, s: State, stage: Stage) -> (Poll, State, Stage, Seq<Event>) {
    match stage {
        Stage::Start => {
            let r = resume_first(instance, s);
            (r.0, r.1, r.2, seq![Event::Begin(instance)] + r.3)
        },
        Stage::FirstAwait => resume_first(instance, s),
        Stage::SecondAwait => resume_second(instance, s),
        Stage::Done => (Poll::Ready, s, Stage::Done, Seq::empty()),
    }
}

/// Number of polls a body needs until it returns `Ready`.
pub open spec fn polls_left(s: State, stage: Stage) -> nat {
    match stage {
        Stage::Done => 0,
        Stage::SecondAwait => if s == State::Halted { 1 } else { 2 },
        Stage::FirstAwait => if s == State::Halted { 2 } else { 3 },
        Stage::Start => if s == State::Halted { 2 } else { 3 },
    }
}

/// A poll that does not finish the body leaves it one poll closer to the end.
pub proof fn lemma_poll_progress(instance: i32, s: State, stage: Stage)
    ensures
        stage != Stage::Done ==> polls_left(s, stage) >= 1,
        resume(instance, s, stage).0 == Poll::Pending ==> {
            &&& stage != Stage::Done
            &&& resume(instance, s, stage).2 != Stage::Done
            &&& polls_left(resume(instance, s, stage).1, resume(instance, s, stage).2) + 1
                == polls_left(s, stage)
        },
        resume(instance, s, stage).0 == Poll::Ready ==> resume(instance, s, stage).2 == Stage::Done,
        resume(instance, s, stage).0 == Poll::Ready && stage != Stage::Done ==> polls_left(s, stage) == 1,
{
}

impl Coroutine {
    pub closed spec fn instance(&self) -> i32 {
        self.instance
    }

    pub closed spec fn state(&self) -> State {
        self.task.state
    }

    pub closed spec fn stage(&self) -> Stage {
        self.stage
    }

    /// A body that has not started, running on `task`.
    pub fn new(instance: i32, task: Task) -> (c: Self)
        ensures
            c.instance() == instance,
            c.state() == task.state,
            c.stage() == Stage::Start,
    {
        Coroutine { instance, task, stage: Stage::Start }
    }

    /// Resume the body until it returns or suspends; the lines it prints are
    /// appended to `log`. A body that has returned cannot be resumed.
    pub fn poll(&mut self, log: &mut Vec<Event>) -> (p: Poll)
        requires
            old(self).stage() != Stage::Done,
        ensures
            ({
                let r = resume(old(self).instance(), old(self).state(), old(self).stage());
                &&& p == r.0
                &&& final(self).state() == r.1
                &&& final(self).stage() == r.2
                &&& final(log)@ == old(log)@ + r.3
            }),
            final(self).instance() == old(self).instance(),
    {
        if self.stage == Stage::Start {
            log.push(Event::Begin(self.instance));
            self.stage = Stage::FirstAwait;
        }
        if self.stage == Stage::FirstAwait {
            let p = self.task.waiter().poll();
            if p == Poll::Pending {
                return Poll::Pending;
            }
            log.push(Event::Next(self.instance));
            self.stage = Stage::SecondAwait;
        }
        let p = self.task.waiter().poll();
        if p == Poll::Pending {
            return Poll::Pending;
        }
        log.push(Event::End(self.instance));
        self.stage = Stage::Done;
        Poll::Ready
    }
}

/// Polls that the coroutines of `q` need, all together, until each has returned.
pub open spec fn total_polls(q: Seq<Coroutine>) -> nat
    decreases q.len(),
{
    if q.len() == 0 {
        0
    } else {
        polls_left(q[0].state(), q[0].stage()) + total_polls(q.drop_first())
    }
}

pub proof fn lemma_total_polls_push(q: Seq<Coroutine>, c: Coroutine)
    ensures
        total_polls(q.push(c)) == total_polls(q) + polls_left(c.state(), c.stage()),
    decreases q.len(),
{
    assert(q.push(c).len() > 0);
    if q.len() > 0 {
        assert(q.push(c)[0] == q[0]);
        assert(q.push(c).drop_first() =~= q.drop_first().push(c));
        lemma_total_polls_push(q.drop_first(), c);
        assert(total_polls(q.push(c)) == polls_left(q[0].state(), q[0].stage()) + total_polls(q.drop_first().push(c)));
    } else {
        assert(q.push(c)[0] == c);
        assert(q.push(c).drop_first() =~= Seq::<Coroutine>::empty());
        assert(total_polls(Seq::<Coroutine>::empty()) == 0);
        assert(total_polls(q.push(c)) == polls_left(c.state(), c.stage()) + total_polls(Seq::<Coroutine>::empty()));
    }
}

/// The coroutine `c` after one poll.
pub closed spec fn after_poll(c: Coroutine) -> Coroutine {
    let r = resume(c.instance, c.task.state, c.stage);
    Coroutine { instance: c.instance, task: Task { state: r.1 }, stage: r.2 }
}

/// The queue after its front coroutine has been polled once: the front is
/// removed, and put back at the end if it is still pending.
pub open spec fn round_robin_step(q: Seq<Coroutine>) -> Seq<Coroutine>
    recommends
        q.len() > 0,
{
    let c = q[0];
    if resume(c.instance(), c.state(), c.stage()).0 == Poll::Pending {
        q.drop_first().push(after_poll(c))
    } else {
        q.drop_first()
    }
}

/// Lines printed while the queue `q` is run round-robin until it is empty:
/// the front coroutine is polled, and put back at the end while it is pending.
pub open spec fn run_spec(q: Seq<Coroutine>) -> Seq<Event>
    decreases total_polls(q), q.len(),
{
    if q.len() == 0 {
        Seq::empty()
    } else {
        let c = q[0];
        let r = resume(c.instance(), c.state(), c.stage());
        proof {
            lemma_poll_progress(c.instance(), c.state(), c.stage());
            lemma_total_polls_push(q.drop_first(), after_poll(c));
        }
        r.3 + run_spec(round_robin_step(q))
    }
}

/// Lines printed when each coroutine of `a` is polled once, in order.
pub open spec fn round_events(a: Seq<Coroutine>) -> Seq<Event>
    decreases a.len(),
{
    if a.len() == 0 {
        Seq::empty()
    } else {
        resume(a[0].instance(), a[0].state(), a[0].stage()).3 + round_events(a.drop_first())
    }
}

/// The coroutines of `a` that are still pending after one poll each, as they
/// stand after that poll, in order.
pub open spec fn survivors(a: Seq<Coroutine>) -> Seq<Coroutine>
    decreases a.len(),
{
    if a.len() == 0 {
        Seq::empty()
    } else {
        let c = a[0];
        let here = if resume(c.instance(), c.state(), c.stage()).0 == Poll::Pending {
            seq![after_poll(c)]
        } else {
            Seq::empty()
        };
        here + survivors(a.drop_first())
    }
}

/// Running `a` followed by `b` first polls each coroutine of `a` once, then
/// runs `b` followed by the coroutines of `a` that are still pending.
pub proof fn lemma_run_round(a: Seq<Coroutine>, b: Seq<Coroutine>)
    ensures
        run_spec(a + b) == round_events(a) + run_spec(b + survivors(a)),
    decreases a.len(),
{
    if a.len() == 0 {
        assert(a + b =~= b);
        assert(b + survivors(a) =~= b);
        assert(round_events(a) + run_spec(b) =~= run_spec(b));
    } else {
        let c = a[0];
        let r = resume(c.instance(), c.state(), c.stage());
        let a1 = a.drop_first();
        let s0 = if r.0 == Poll::Pending { seq![after_poll(c)] } else { Seq::<Coroutine>::empty() };
        assert((a + b)[0] == c);
        assert((a + b).drop_first() =~= a1 + b);
        assert(round_robin_step(a + b) =~= a1 + (b + s0));
        lemma_run_round(a1, b + s0);
        assert(survivors(a) == s0 + survivors(a1));
        assert(b + survivors(a) =~= (b + s0) + survivors(a1));
        assert(run_spec(a + b) == r.3 + run_spec(a1 + (b + s0)));
        assert(round_events(a) == r.3 + round_events(a1));
        assert(run_spec(a + b) =~= round_events(a) + run_spec(b + survivors(a)));
    }
}

/// One round over coroutines that all stand at the same stage with the same
/// task state, where each poll prints exactly the line `line(instance)`.
proof fn lemma_uniform_round(q: Seq<Coroutine>, st: Stage, s: State, line: spec_fn(i32) -> Event)
    requires
        forall|i: int| 0 <= i < q.len() ==> #[trigger] q[i].stage() == st && q[i].state() == s,
        forall|inst: i32| #[trigger] resume(inst, s, st).3 == seq![line(inst)],
    ensures
        round_events(q) =~= Seq::new(q.len(), |i: int| line(q[i].instance())),
        resume(0, s, st).0 == Poll::Ready ==> survivors(q) =~= Seq::<Coroutine>::empty(),
        resume(0, s, st).0 == Poll::Pending ==> {
            &&& survivors(q).len() == q.len()
            &&& forall|i: int| #![trigger survivors(q)[i]] 0 <= i < q.len() ==> {
                &&& survivors(q)[i].instance() == q[i].instance()
                &&& survivors(q)[i].stage() == resume(0, s, st).2
                &&& survivors(q)[i].state() == resume(0, s, st).1
            }
        },
    decreases q.len(),
{
    if q.len() > 0 {
        let q1 = q.drop_first();
        assert forall|i: int| 0 <= i < q1.len() implies #[trigger] q1[i].stage() == st && q1[i].state() == s by {
            assert(q1[i] == q[i + 1]);
        }
        lemma_uniform_round(q1, st, s, line);
        let r = resume(q[0].instance(), s, st);
        assert(r.0 == resume(0, s, st).0 && r.1 == resume(0, s, st).1 && r.2 == resume(0, s, st).2);
        assert(r.3 == seq![line(q[0].instance())]);
        if r.0 == Poll::Pending {
            assert(survivors(q) == seq![after_poll(q[0])] + survivors(q1));
            assert forall|i: int| #![trigger survivors(q)[i]] 0 <= i < q.len() implies {
                &&& survivors(q)[i].instance() == q[i].instance()
                &&& survivors(q)[i].stage() == resume(0, s, st).2
                &&& survivors(q)[i].state() == resume(0, s, st).1
            } by {
                if i > 0 {
                    assert(survivors(q)[i] == survivors(q1)[i - 1]);
                    assert(q1[i - 1] == q[i]);
                } else {
                    assert(survivors(q)[0] == after_poll(q[0]));
                }
            }
        }
    }
}

proof fn lemma_total_polls_fresh(q: Seq<Coroutine>)
    requires
        forall|i: int| 0 <= i < q.len() ==> #[trigger] q[i].stage() == Stage::Start && q[i].state() == State::Running,
    ensures
        total_polls(q) == 3 * q.len(),
    decreases q.len(),
{
    if q.len() > 0 {
        let q1 = q.drop_first();
        assert forall|i: int| 0 <= i < q1.len() implies #[trigger] q1[i].stage() == Stage::Start && q1[i].state() == State::Running by {
            assert(q1[i] == q[i + 1]);
        }
        lemma_total_polls_fresh(q1);
        assert(q[0].stage() == Stage::Start && q[0].state() == State::Running);
    }
}

/// Running coroutines that have not started, each on a running task, prints
/// every coroutine's begin line in queue order, then every next line in the
/// same order, then every end line; each coroutine is polled exactly three times.
pub proof fn lemma_run_fresh(q: Seq<Coroutine>)
    requires
        forall|i: int| 0 <= i < q.len() ==> #[trigger] q[i].stage() == Stage::Start && q[i].state() == State::Running,
    ensures
        run_spec(q) == Seq::new(q.len(), |i: int| Event::Begin(q[i].instance()))
            + Seq::new(q.len(), |i: int| Event::Next(q[i].instance()))
            + Seq::new(q.len(), |i: int| Event::End(q[i].instance())),
        total_polls(q) == 3 * q.len(),
{
    lemma_total_polls_fresh(q);
    let e = Seq::<Coroutine>::empty();
    let begin = |x: i32| Event::Begin(x);
    let next = |x: i32| Event::Next(x);
    let end = |x: i32| Event::End(x);
    assert forall|inst: i32| #[trigger] resume(inst, State::Running, Stage::Start).3 == seq![begin(inst)] by {
        assert(resume(inst, State::Running, Stage::Start).3 =~= seq![begin(inst)]);
    }
    lemma_uniform_round(q, Stage::Start, State::Running, begin);
    let q1 = survivors(q);
    assert forall|i: int| 0 <= i < q1.len() implies #[trigger] q1[i].stage() == Stage::FirstAwait && q1[i].state() == State::Halted by {
        assert(survivors(q)[i] == q1[i]);
    }
    assert forall|inst: i32| #[trigger] resume(inst, State::Halted, Stage::FirstAwait).3 == seq![next(inst)] by {
        assert(resume(inst, State::Halted, Stage::FirstAwait).3 =~= seq![next(inst)]);
    }
    lemma_uniform_round(q1, Stage::FirstAwait, State::Halted, next);
    let q2 = survivors(q1);
    assert forall|i: int| 0 <= i < q2.len() implies #[trigger] q2[i].stage() == Stage::SecondAwait && q2[i].state() == State::Halted by {
        assert(survivors(q1)[i] == q2[i]);
    }
    assert forall|inst: i32| #[trigger] resume(inst, State::Halted, Stage::SecondAwait).3 == seq![end(inst)] by {
        assert(resume(inst, State::Halted, Stage::SecondAwait).3 =~= seq![end(inst)]);
    }
    lemma_uniform_round(q2, Stage::SecondAwait, State::Halted, end);
    assert(q + e =~= q);
    lemma_run_round(q, e);
    assert(e + q1 =~= q1 + e);
    lemma_run_round(q1, e);
    assert(e + q2 =~= q2 + e);
    lemma_run_round(q2, e);
    assert(e + survivors(q2) =~= e);
    assert(run_spec(e) =~= Seq::<Event>::empty());
    assert(Seq::new(q1.len(), |i: int| next(q1[i].instance())) =~= Seq::new(q.len(), |i: int| Event::Next(q[i].instance())));
    assert(Seq::new(q2.len(), |i: int| end(q2[i].instance())) =~= Seq::new(q.len(), |i: int| Event::End(q[i].instance())));
}

/// Runs coroutines to completion, one poll at a time, in turn.
pub struct Executor {
    tasks: VecDeque<Coroutine>,
    polls: Ghost<nat>,
}

impl Executor {
    /// Coroutines waiting to be polled, the next one first.
    pub closed spec fn tasks(&self) -> Seq<Coroutine> {
        self.tasks@
    }

    /// Number of coroutine polls this executor has made.
    pub closed spec fn polls_made(&self) -> nat {
        self.polls@
    }

    /// An executor with no coroutine.
    pub fn new() -> (e: Self)
        ensures
            e.tasks() == Seq::<Coroutine>::empty(),
            e.polls_made() == 0,
    {
        Executor { tasks: VecDeque::new(), polls: Ghost(0) }
    }

    /// Queue the coroutine that `closure` builds on a fresh running task.
    pub fn push<C>(&mut self, closure: C)
        where
            C: FnOnce(Task) -> Coroutine,
        requires
            closure.requires((Task { state: State::Running },)),
        ensures
            exists|c: Coroutine|
                closure.ensures((Task { state: State::Running },), c)
                && final(self).tasks() == old(self).tasks().push(c),
            final(self).polls_made() == old(self).polls_made(),
    {
        let task = Task { state: State::Running };
        let c = closure(task);
        self.tasks.push_back(c);
        assert(closure.ensures((Task { state: State::Running },), c) && self.tasks() == old(self).tasks().push(c));
    }

    /// Poll the queued coroutines in turn until all have returned; returns the
    /// lines they printed, in order. It makes exactly as many polls as the
    /// queued coroutines need together to return.
    pub fn run(&mut self) -> (log: Vec<Event>)
        requires
            forall|i: int| 0 <= i < old(self).tasks().len() ==> #[trigger] old(self).tasks()[i].stage() != Stage::Done,
        ensures
            final(self).tasks() == Seq::<Coroutine>::empty(),
            log@ == run_spec(old(self).tasks()),
            final(self).polls_made() == old(self).polls_made() + total_polls(old(self).tasks()),
    {
        let ghost q0 = self.tasks@;
        let ghost polls0 = self.polls@;
        let mut log: Vec<Event> = Vec::new();
        assert(forall|i: int| 0 <= i < q0.len() ==> #[trigger] q0[i].stage() == old(self).tasks()[i].stage());
        loop
            invariant
                log@ + run_spec(self.tasks@) == run_spec(q0),
                forall|i: int| 0 <= i < self.tasks@.len() ==> #[trigger] self.tasks@[i].stage() != Stage::Done,
                self.polls@ + total_polls(self.tasks@) == polls0 + total_polls(q0),
            ensures
                self.tasks@ == Seq::<Coroutine>::empty(),
                log@ == run_spec(q0),
                self.polls@ == polls0 + total_polls(q0),
            decreases total_polls(self.tasks@), self.tasks@.len(),
        {
            let ghost q = self.tasks@;
            match self.tasks.pop_front() {
                None => {
                    break;
                },
                Some(mut task) => {
                    let ghost c = task;
                    let ghost log_before = log@;
                    proof {
                        lemma_poll_progress(c.instance(), c.state(), c.stage());
                        lemma_total_polls_push(q.drop_first(), after_poll(c));
                    }
                    let p = task.poll(&mut log);
                    proof {
                        self.polls@ = self.polls@ + 1;
                    }
                    match p {
                        Poll::Pending => {
                            assert(task == after_poll(c));
                            self.tasks.push_back(task);
                        },
                        Poll::Ready => {},
                    }
                    proof {
                        assert(self.tasks@ =~= round_robin_step(q));
                        assert(log@ =~= log_before + resume(c.instance(), c.state(), c.stage()).3);
                        assert(log@ + run_spec(self.tasks@) =~= log_before + run_spec(q));
                    }
                },
            }
        }
        log
    }
}

} // verus!
