//! The fixture's view of its outside collaborators: the timer that backs a
//! scripted wait, the cooperative task handles used to park and wake the
//! reader, and the one-shot disposal channel. Each item here is trusted;
//! every contract states only what holds of every outcome, since when a
//! timer fires and which task is being polled depend on the clock and the
//! scheduler, not on the arguments.

use futures::Future;
use std::sync::mpsc::Receiver;
use std::sync::mpsc::Sender;
use vstd::prelude::*;

verus! {

#[verifier::external_type_specification]
#[verifier::external_body]
pub struct ExTimer(tokio_timer::Timer);

#[verifier::external_type_specification]
#[verifier::external_body]
pub struct ExSleep(tokio_timer::Sleep);

#[verifier::external_type_specification]
#[verifier::external_body]
pub struct ExTimerError(tokio_timer::TimerError);

#[verifier::external_type_specification]
#[verifier::external_body]
pub struct ExTask(futures::task::Task);

#[verifier::external_type_specification]
#[verifier::external_body]
#[verifier::reject_recursive_types(T)]
pub struct ExSender<T>(Sender<T>);

#[verifier::external_type_specification]
#[verifier::external_body]
#[verifier::reject_recursive_types(T)]
pub struct ExReceiver<T>(Receiver<T>);

/// Relies on tokio_timer::Timer::default: a timer driven by a worker of its
/// own, against which delays can be scheduled.
#[verifier::external_body]
pub(crate) fn timer_default() -> tokio_timer::Timer {
    tokio_timer::Timer::default()
}

/// Relies on tokio_timer::Timer::sleep: a delay that completes once the
/// given number of milliseconds has elapsed on the timer's clock.
#[verifier::external_body]
pub(crate) fn sleep_start(timer: &tokio_timer::Timer, millis: u64) -> tokio_timer::Sleep {
    timer.sleep(std::time::Duration::from_millis(millis))
}

/// Relies on tokio_timer::Sleep::poll: reports whether the delay has
/// elapsed and, when it has not, arranges for the task being polled to be
/// notified once it has. Nothing is promised of the outcome: it depends on
/// the clock. A delay whose remaining time exceeds the timer's maximum
/// timeout is reported back as the timer's own error, for the caller to
/// decide on. As in any polled transport, an unexpired delay may only be
/// polled from inside a task.
#[verifier::external_body]
pub(crate) fn sleep_poll(sleep: &mut tokio_timer::Sleep) -> Result<bool, tokio_timer::TimerError> {
    match sleep.poll() {
        Ok(ready) => Ok(ready.is_ready()),
        Err(e) => Err(e),
    }
}

/// Relies on futures::task::current: a handle to the task being polled.
/// As in any polled transport, the caller must be running inside a task.
#[verifier::external_body]
pub(crate) fn task_current() -> futures::task::Task {
    futures::task::current()
}

/// Relies on futures::task::Task::notify: schedules the task to be polled
/// again.
#[verifier::external_body]
pub(crate) fn task_notify(task: futures::task::Task) {
    task.notify()
}

/// Relies on std::sync::mpsc::channel: a fresh sending half connected to
/// the returned receiving half.
#[verifier::external_body]
pub(crate) fn channel_unit() -> (Sender<()>, Receiver<()>) {
    std::sync::mpsc::channel()
}

} // verus!
