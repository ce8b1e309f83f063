//! The mathematical model of a script: the pending actions, the active
//! head-of-script state, and the transition relations that the fixture's
//! read and write paths are proved against.

use vstd::prelude::*;

verus! {

/// The error taxonomy of the stream surface.
///
/// `WouldBlock` is transient: the script has not yet reached a point where
/// the attempted operation is expected; retry after being notified.
/// `BrokenPipe` is permanent: the script is exhausted but the consumer still
/// tried to send data.
/// `ScriptMismatch` is fatal: the consumer wrote bytes that diverge from the
/// scripted expectation; an unverified rim must abort on it, never retry.
#[derive(Clone, Copy, Debug, PartialEq, Eq, Structural)]
pub enum IoError {
    WouldBlock,
    BrokenPipe,
    ScriptMismatch,
}

/// One scripted step, as the model sees it: bytes the peer will send,
/// bytes the consumer must produce, or a pause in milliseconds.
pub ghost enum AbsAction {
    Read(Seq<u8>),
    Write(Seq<u8>),
    Wait(u64),
}

/// The live realization of the head-of-script action: a cursor over bytes
/// still to be handed out, a cursor over bytes still expected, or an
/// outstanding delay of the declared duration (whose remaining time the
/// model does not track; whether it has elapsed is the timer's to report).
pub ghost enum AbsActive {
    Reading { data: Seq<u8>, pos: nat },
    Writing { data: Seq<u8>, pos: nat },
    Waiting { millis: u64 },
}

/// The whole fixture, abstractly: the optional active state, the queue of
/// pending actions, whether a reader is parked awaiting readiness, and
/// whether the disposal receiver is still held by the fixture.
#[verifier::ext_equal]
pub ghost struct FixtureView {
    pub active: Option<AbsActive>,
    pub queue: Seq<AbsAction>,
    pub waiter: bool,
    pub receiver_present: bool,
}

pub open spec fn spec_min(a: int, b: int) -> int {
    if a < b {
        a
    } else {
        b
    }
}

/// Cursor positions never pass the end of their buffer.
pub open spec fn view_wf(v: FixtureView) -> bool {
    match v.active {
        Some(AbsActive::Reading { data, pos }) => pos <= data.len(),
        Some(AbsActive::Writing { data, pos }) => pos <= data.len(),
        _ => true,
    }
}

/// Whether the active state is finished. A wait carries no clock in the
/// model; `wait_fired` stands for what the timer reported.
pub open spec fn active_complete(a: AbsActive, wait_fired: bool) -> bool {
    match a {
        AbsActive::Reading { data, pos } => pos == data.len(),
        AbsActive::Writing { data, pos } => pos == data.len(),
        AbsActive::Waiting { .. } => wait_fired,
    }
}

/// A freshly promoted action starts with its cursor at zero.
pub open spec fn materialize(a: AbsAction) -> AbsActive {
    match a {
        AbsAction::Read(data) => AbsActive::Reading { data, pos: 0 },
        AbsAction::Write(data) => AbsActive::Writing { data, pos: 0 },
        AbsAction::Wait(millis) => AbsActive::Waiting { millis },
    }
}

/// One driver step: retire the active state if it is complete, then, if no
/// active state remains, promote the next pending action.
pub open spec fn step(v: FixtureView, wait_fired: bool) -> FixtureView {
    let cleared = match v.active {
        Some(a) => if active_complete(a, wait_fired) {
            FixtureView { active: None, queue: v.queue, waiter: v.waiter, receiver_present: v.receiver_present }
        } else {
            v
        },
        None => v,
    };
    if cleared.active is None && cleared.queue.len() > 0 {
        FixtureView {
            active: Some(materialize(cleared.queue[0])),
            queue: cleared.queue.skip(1),
            waiter: cleared.waiter,
            receiver_present: cleared.receiver_present,
        }
    } else {
        cleared
    }
}

/// Read-readiness after a driver step: data is on offer, or the script is
/// exhausted (end of stream).
pub open spec fn read_ready(v: FixtureView) -> bool {
    v.active matches Some(AbsActive::Reading { .. }) || v.active is None
}

/// The view with a parked reader registered.
pub open spec fn with_waiter(v: FixtureView) -> FixtureView {
    FixtureView { active: v.active, queue: v.queue, waiter: true, receiver_present: v.receiver_present }
}

/// The view with any parked reader woken (the slot emptied).
pub open spec fn without_waiter(v: FixtureView) -> FixtureView {
    FixtureView { active: v.active, queue: v.queue, waiter: false, receiver_present: v.receiver_present }
}

/// A fixture freshly built from a queue of pending actions: nothing active,
/// no parked reader, the disposal receiver still held.
pub open spec fn initial_view(queue: Seq<AbsAction>) -> FixtureView {
    FixtureView { active: None, queue, waiter: false, receiver_present: true }
}

/// The view with one more action appended to the script.
pub open spec fn push_action(v: FixtureView, a: AbsAction) -> FixtureView {
    FixtureView { active: v.active, queue: v.queue.push(a), waiter: v.waiter, receiver_present: v.receiver_present }
}

/// The view once the disposal receiver has been handed out.
pub open spec fn without_receiver(v: FixtureView) -> FixtureView {
    FixtureView { active: v.active, queue: v.queue, waiter: v.waiter, receiver_present: false }
}

/// The wakeup pass made after every state-mutating operation: one driver
/// step, then wake the parked reader exactly when reading is again possible
/// or the script is exhausted.
pub open spec fn wake_step(v: FixtureView, wait_fired: bool) -> FixtureView {
    let s = step(v, wait_fired);
    if read_ready(s) {
        without_waiter(s)
    } else {
        s
    }
}

/// The active cursor advanced by `n` bytes.
pub open spec fn bump_pos(v: FixtureView, n: int) -> FixtureView {
    let active = match v.active {
        Some(AbsActive::Reading { data, pos }) => Some(AbsActive::Reading { data, pos: (pos + n) as nat }),
        Some(AbsActive::Writing { data, pos }) => Some(AbsActive::Writing { data, pos: (pos + n) as nat }),
        other => other,
    };
    FixtureView { active, queue: v.queue, waiter: v.waiter, receiver_present: v.receiver_present }
}

/// What `read` does once the driver has taken its step. `v1` is the view
/// after that step, so an active state here is never a retired one.
pub open spec fn read_transition_from(
    v1: FixtureView,
    post: FixtureView,
    dst0: Seq<u8>,
    dst1: Seq<u8>,
    r: Result<usize, IoError>,
) -> bool {
    match v1.active {
        Some(AbsActive::Reading { data, pos }) => {
            let n = spec_min(dst0.len() as int, data.len() - pos);
            &&& r matches Ok(c) && c == n
            &&& dst1 == data.subrange(pos as int, pos + n) + dst0.skip(n)
            &&& exists|f: bool| post == wake_step(bump_pos(v1, n), f)
        },
        Some(_) => {
            &&& r == Err::<usize, IoError>(IoError::WouldBlock)
            &&& dst1 == dst0
            &&& post == with_waiter(v1)
        },
        None => {
            &&& r matches Ok(c) && c == 0
            &&& dst1 == dst0
            &&& exists|f: bool| post == wake_step(v1, f)
        },
    }
}

/// The full contract of `read`: one driver step (whose wait outcome, if a
/// wait was at the head, the timer decided), then the read proper.
pub open spec fn read_transition(
    pre: FixtureView,
    post: FixtureView,
    dst0: Seq<u8>,
    dst1: Seq<u8>,
    r: Result<usize, IoError>,
) -> bool {
    exists|f: bool| read_transition_from(step(pre, f), post, dst0, dst1, r)
}

/// What `write` does once the driver has taken its step.
pub open spec fn write_transition_from(
    v1: FixtureView,
    post: FixtureView,
    src: Seq<u8>,
    r: Result<usize, IoError>,
) -> bool {
    match v1.active {
        Some(AbsActive::Writing { data, pos }) => {
            let n = spec_min(src.len() as int, data.len() - pos);
            if src.subrange(0, n) == data.subrange(pos as int, pos + n) {
                &&& r matches Ok(c) && c == n
                &&& exists|f: bool| post == wake_step(bump_pos(v1, n), f)
            } else {
                &&& r == Err::<usize, IoError>(IoError::ScriptMismatch)
                &&& post == v1
            }
        },
        Some(_) => {
            &&& r == Err::<usize, IoError>(IoError::WouldBlock)
            &&& post == v1
        },
        None => {
            &&& r == Err::<usize, IoError>(IoError::BrokenPipe)
            &&& post == v1
        },
    }
}

/// The full contract of `write`.
pub open spec fn write_transition(
    pre: FixtureView,
    post: FixtureView,
    src: Seq<u8>,
    r: Result<usize, IoError>,
) -> bool {
    exists|f: bool| write_transition_from(step(pre, f), post, src, r)
}

} // verus!
