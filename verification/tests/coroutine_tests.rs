use rcore_os::coroutine::{Coroutine, Event, Executor, Poll, State, Task};

#[test]
fn waiter_suspends_once() {
    let mut task = Task { state: State::Running };
    assert_eq!(task.waiter().poll(), Poll::Pending);
    assert_eq!(task.state, State::Halted);
    assert_eq!(task.waiter().poll(), Poll::Ready);
    assert_eq!(task.state, State::Running);
}

#[test]
fn fresh_coroutine_takes_three_polls() {
    let mut c = Coroutine::new(5, Task { state: State::Running });
    let mut log = Vec::new();
    assert_eq!(c.poll(&mut log), Poll::Pending);
    assert_eq!(log, vec![Event::Begin(5)]);
    assert_eq!(c.poll(&mut log), Poll::Pending);
    assert_eq!(log, vec![Event::Begin(5), Event::Next(5)]);
    assert_eq!(c.poll(&mut log), Poll::Ready);
    assert_eq!(log, vec![Event::Begin(5), Event::Next(5), Event::End(5)]);
}

#[test]
fn coroutine_on_halted_task_skips_one_suspension() {
    let mut c = Coroutine::new(1, Task { state: State::Halted });
    let mut log = Vec::new();
    assert_eq!(c.poll(&mut log), Poll::Pending);
    assert_eq!(log, vec![Event::Begin(1), Event::Next(1)]);
    assert_eq!(c.poll(&mut log), Poll::Ready);
    assert_eq!(log, vec![Event::Begin(1), Event::Next(1), Event::End(1)]);
}

#[test]
fn three_coroutines_run_round_robin() {
    let mut exec = Executor::new();
    for instance in 1..=3 {
        exec.push(move |task| Coroutine::new(instance, task));
    }
    let log = exec.run();
    assert_eq!(
        log,
        vec![
            Event::Begin(1),
            Event::Begin(2),
            Event::Begin(3),
            Event::Next(1),
            Event::Next(2),
            Event::Next(3),
            Event::End(1),
            Event::End(2),
            Event::End(3),
        ]
    );
    assert!(exec.run().is_empty());
}

#[test]
fn empty_executor_runs_nothing() {
    let mut exec = Executor::new();
    assert!(exec.run().is_empty());
}
