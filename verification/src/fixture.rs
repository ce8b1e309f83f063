//! The fixture: the script queue, the active head-of-script state, the
//! driver that advances one into the other, the non-blocking read and write
//! paths, the single-slot waiter registry, and the disposal signal.

use crate::ext;
use crate::script::AbsAction;
use crate::script::AbsActive;
use crate::script::FixtureView;
use crate::script::IoError;
use crate::script::active_complete;
use crate::script::bump_pos;
use crate::script::initial_view;
use crate::script::push_action;
use crate::script::read_ready;
use crate::script::read_transition;
use crate::script::read_transition_from;
use crate::script::step;
use crate::script::view_wf;
use crate::script::wake_step;
use crate::script::with_waiter;
use crate::script::without_receiver;
use crate::script::without_waiter;
use crate::script::write_transition;
use crate::script::write_transition_from;
use std::collections::VecDeque;
use std::sync::mpsc::Receiver;
use std::sync::mpsc::Sender;
use vstd::pervasive::VecAdditionalExecFns;
use vstd::prelude::*;

verus! {

/// One scripted step, as queued by the builder calls.
pub(crate) enum Action {
    Read(Vec<u8>),
    Write(Vec<u8>),
    Wait(u64),
}

impl View for Action {
    type V = AbsAction;

    closed spec fn view(&self) -> AbsAction {
        match self {
            Action::Read(data) => AbsAction::Read(data@),
            Action::Write(data) => AbsAction::Write(data@),
            Action::Wait(millis) => AbsAction::Wait(*millis),
        }
    }
}

/// The live realization of the current head-of-script action. A wait keeps
/// the milliseconds it was declared with beside the sleep that was started
/// for exactly that long, so the view can show the declared duration.
pub(crate) enum State {
    Reading { data: Vec<u8>, pos: usize },
    Writing { data: Vec<u8>, pos: usize },
    Waiting { sleep: tokio_timer::Sleep, millis: Ghost<u64> },
}

/// A scripted, deterministic stand-in for a non-blocking byte stream.
///
/// Built by `empty` and the `then_*` calls (or from a capture by `load`),
/// then driven through `read` and `write`, which enforce the script byte
/// for byte and present would-block, broken-pipe and end-of-stream exactly
/// as a real non-blocking transport would.
pub struct FixtureIo {
    state: Option<State>,
    actions: VecDeque<Action>,
    timer: tokio_timer::Timer,
    read_wait: Option<futures::task::Task>,
    drop_tx: Sender<()>,
    drop_rx: Option<Receiver<()>>,
}

impl View for FixtureIo {
    type V = FixtureView;

    closed spec fn view(&self) -> FixtureView {
        FixtureView {
            active: match self.state {
                Some(State::Reading { data, pos }) => Some(AbsActive::Reading { data: data@, pos: pos as nat }),
                Some(State::Writing { data, pos }) => Some(AbsActive::Writing { data: data@, pos: pos as nat }),
                Some(State::Waiting { millis, .. }) => Some(AbsActive::Waiting { millis: millis@ }),
                None => None,
            },
            queue: self.actions@.map_values(|a: Action| a@),
            waiter: self.read_wait is Some,
            receiver_present: self.drop_rx is Some,
        }
    }
}

impl FixtureIo {
    /// The cursors of the live state never pass the end of their buffer.
    pub open spec fn wf(&self) -> bool {
        view_wf(self@)
    }

    /// Returns a new fixture that expects and returns nothing: a read sees
    /// end-of-stream at once, a write sees a broken pipe.
    pub fn empty() -> (r: FixtureIo)
        ensures
            r.wf(),
            r@ == initial_view(Seq::<AbsAction>::empty()),
    {
        let (tx, rx) = ext::channel_unit();
        let r = FixtureIo {
            state: None,
            actions: VecDeque::new(),
            timer: ext::timer_default(),
            read_wait: None,
            drop_tx: tx,
            drop_rx: Some(rx),
        };
        proof {
            assert(r@.queue =~= Seq::<AbsAction>::empty());
            assert(r@ =~= initial_view(Seq::<AbsAction>::empty()));
        }
        r
    }

    /// Appends a scripted step in which the peer sends `data`: the consumer
    /// will observe exactly these bytes from `read`.
    pub fn then_read(self, data: Vec<u8>) -> (r: FixtureIo)
        ensures
            r@ == push_action(self@, AbsAction::Read(data@)),
            r.wf() == self.wf(),
    {
        let mut this = self;
        let ghost q0 = this.actions@;
        this.actions.push_back(Action::Read(data));
        proof {
            assert(this.actions@.map_values(|a: Action| a@) =~= q0.map_values(|a: Action| a@).push(
                AbsAction::Read(data@),
            ));
        }
        this
    }

    /// Appends a scripted step in which the consumer must write exactly
    /// `data`; any divergence is a script mismatch.
    pub fn then_write(self, data: Vec<u8>) -> (r: FixtureIo)
        ensures
            r@ == push_action(self@, AbsAction::Write(data@)),
            r.wf() == self.wf(),
    {
        let mut this = self;
        let ghost q0 = this.actions@;
        this.actions.push_back(Action::Write(data));
        proof {
            assert(this.actions@.map_values(|a: Action| a@) =~= q0.map_values(|a: Action| a@).push(
                AbsAction::Write(data@),
            ));
        }
        this
    }

    /// Appends a scripted pause of `millis` milliseconds: until it has
    /// elapsed, reads see would-block.
    pub fn then_wait(self, millis: u64) -> (r: FixtureIo)
        ensures
            r@ == push_action(self@, AbsAction::Wait(millis)),
            r.wf() == self.wf(),
    {
        let mut this = self;
        let ghost q0 = this.actions@;
        this.actions.push_back(Action::Wait(millis));
        proof {
            assert(this.actions@.map_values(|a: Action| a@) =~= q0.map_values(|a: Action| a@).push(
                AbsAction::Wait(millis),
            ));
        }
        this
    }

    /// Hands out the receiving half of the disposal signal, which fires when
    /// the fixture is dropped. It exists once: a second call is a usage
    /// error, excluded by the precondition.
    pub fn receiver(&mut self) -> (r: Receiver<()>)
        requires
            old(self)@.receiver_present,
        ensures
            final(self)@ == without_receiver(old(self)@),
            final(self).wf() == old(self).wf(),
    {
        let rx = self.drop_rx.take();
        rx.unwrap()
    }

    /// Whether the current live state is finished: a cursor at the end of
    /// its buffer, or a wait whose timer reports elapsed. The result for a
    /// wait is the timer's to decide; the model learns it only here.
    fn is_current_action_complete(&mut self) -> (r: bool)
        ensures
            final(self)@ == old(self)@,
            match old(self)@.active {
                Some(AbsActive::Reading { data, pos }) => r == (pos == data.len()),
                Some(AbsActive::Writing { data, pos }) => r == (pos == data.len()),
                Some(AbsActive::Waiting { .. }) => true,
                None => r == false,
            },
    {
        let r = match &mut self.state {
            Some(State::Reading { data, pos }) => *pos == data.len(),
            Some(State::Writing { data, pos }) => *pos == data.len(),
            Some(State::Waiting { sleep, .. }) => match ext::sleep_poll(sleep) {
                Ok(fired) => fired,
                // A delay the timer cannot yet schedule is simply not
                // finished; nothing is retired on its account.
                Err(_) => false,
            },
            None => false,
        };
        proof {
            assert(self@ =~= old(self)@);
        }
        r
    }

    /// The driver: retires a finished live state, then promotes the next
    /// queued action, materializing a read or write at cursor zero or
    /// starting the timer of a wait. A wait found already elapsed notifies
    /// the current task at once, so a zero delay cannot stall the scheduler.
    fn advance(&mut self) -> (fired: Ghost<bool>)
        requires
            old(self).wf(),
        ensures
            final(self).wf(),
            final(self)@ == step(old(self)@, fired@),
    {
        let complete = self.is_current_action_complete();
        let ghost f = complete;
        proof {
            assert(match old(self)@.active {
                Some(a) => complete == active_complete(a, f),
                None => !complete,
            });
        }
        if complete {
            self.state = None;
        }
        let ghost cleared = self@;
        if self.state.is_none() {
            let next = self.actions.pop_front();
            match next {
                Some(Action::Read(data)) => {
                    self.state = Some(State::Reading { data, pos: 0 });
                },
                Some(Action::Write(data)) => {
                    self.state = Some(State::Writing { data, pos: 0 });
                },
                Some(Action::Wait(millis)) => {
                    let mut sleep = ext::sleep_start(&self.timer, millis);
                    // A delay found already elapsed notifies at once; one
                    // the timer cannot yet schedule counts as unfinished.
                    let already_fired = match ext::sleep_poll(&mut sleep) {
                        Ok(fired) => fired,
                        Err(_) => false,
                    };
                    if already_fired {
                        let task = ext::task_current();
                        ext::task_notify(task);
                    }
                    self.state = Some(State::Waiting { sleep, millis: Ghost(millis) });
                },
                None => {},
            }
            proof {
                if cleared.queue.len() > 0 {
                    assert(self@.queue =~= cleared.queue.skip(1));
                    assert(self@.active == Some(crate::script::materialize(cleared.queue[0])));
                }
                assert(self@ =~= step(old(self)@, f));
            }
        } else {
            proof {
                assert(self@ =~= step(old(self)@, f));
            }
        }
        Ghost(f)
    }

    /// The wakeup pass: after advancing, wakes the parked reader exactly
    /// when reading is again possible or the script is exhausted.
    fn maybe_wakeup_reader(&mut self) -> (fired: Ghost<bool>)
        requires
            old(self).wf(),
        ensures
            final(self).wf(),
            final(self)@ == wake_step(old(self)@, fired@),
    {
        let fired = self.advance();
        let ready = match &self.state {
            Some(State::Reading { .. }) => true,
            None => true,
            Some(_) => false,
        };
        if ready {
            let parked = self.read_wait.take();
            match parked {
                Some(task) => ext::task_notify(task),
                None => {},
            }
            proof {
                assert(self@ =~= without_waiter(step(old(self)@, fired@)));
            }
        }
        fired
    }

    /// Read-readiness: after one driver step, true when data is on offer or
    /// the script is exhausted. When not ready, the current task is parked
    /// in the single waiter slot, to be woken by the wakeup pass.
    fn poll_read(&mut self) -> (r: (bool, Ghost<bool>))
        requires
            old(self).wf(),
        ensures
            final(self).wf(),
            ({
                let v1 = step(old(self)@, r.1@);
                &&& r.0 == read_ready(v1)
                &&& if r.0 {
                    final(self)@ == v1
                } else {
                    final(self)@ == with_waiter(v1)
                }
            }),
    {
        let fired = self.advance();
        let ready = match &self.state {
            Some(State::Reading { .. }) => true,
            None => true,
            Some(_) => false,
        };
        if !ready {
            let task = ext::task_current();
            self.read_wait = Some(task);
            proof {
                assert(self@ =~= with_waiter(step(old(self)@, fired@)));
            }
        }
        (ready, fired)
    }

    /// Reads from the script. When the head of the script offers bytes,
    /// copies as many as fit into `dst` and returns the count; when the
    /// script is exhausted, returns zero (end of stream); otherwise returns
    /// would-block and parks the caller's task for a later wakeup.
    pub fn read(&mut self, dst: &mut Vec<u8>) -> (r: Result<usize, IoError>)
        requires
            old(self).wf(),
        ensures
            final(self).wf(),
            final(dst)@.len() == old(dst)@.len(),
            read_transition(old(self)@, final(self)@, old(dst)@, final(dst)@, r),
    {
        let (ready, fired) = self.poll_read();
        let ghost f1 = fired@;
        if !ready {
            proof {
                let v1 = step(old(self)@, f1);
                assert(read_transition_from(v1, self@, old(dst)@, dst@, Err(IoError::WouldBlock)));
            }
            return Err(IoError::WouldBlock);
        }
        let ghost v1 = self@;
        let at_eof = match &self.state {
            None => true,
            Some(_) => false,
        };
        if at_eof {
            let f2 = self.maybe_wakeup_reader();
            proof {
                assert(read_transition_from(v1, self@, old(dst)@, dst@, Ok(0usize)));
            }
            return Ok(0);
        }
        let mut n: usize = 0;
        match &self.state {
            Some(State::Reading { data, pos }) => {
                let rem = data.len() - *pos;
                n = if dst.len() < rem {
                    dst.len()
                } else {
                    rem
                };
                let mut i: usize = 0;
                while i < n
                    invariant
                        i <= n,
                        n <= dst@.len(),
                        *pos + n <= data@.len(),
                        data@.len() <= usize::MAX,
                        dst@.len() == old(dst)@.len(),
                        forall|j: int| 0 <= j < i ==> dst@[j] == data@[*pos + j],
                        forall|j: int| i <= j < dst@.len() ==> dst@[j] == old(dst)@[j],
                    decreases n - i,
                {
                    let b = data[*pos + i];
                    dst.set(i, b);
                    i += 1;
                }
                proof {
                    assert(dst@ =~= data@.subrange(*pos as int, *pos + n) + old(dst)@.skip(
                        n as int,
                    ));
                }
            },
            _ => {
                proof {
                    assert(false);
                }
            },
        }
        match &mut self.state {
            Some(State::Reading { data, pos }) => {
                *pos = *pos + n;
            },
            _ => {
                proof {
                    assert(false);
                }
            },
        }
        proof {
            assert(self@ =~= bump_pos(v1, n as int));
        }
        let f2 = self.maybe_wakeup_reader();
        proof {
            assert(read_transition_from(v1, self@, old(dst)@, dst@, Ok(n)));
        }
        Ok(n)
    }

    /// Writes to the script. When the head of the script expects bytes,
    /// compares the offered prefix against the expectation: a full match of
    /// the overlapping length advances the script and returns that count; a
    /// single diverging byte is the fatal script mismatch, with nothing
    /// consumed. A write after the script has ended is a broken pipe; one
    /// before the script expects it is would-block.
    pub fn write(&mut self, src: &Vec<u8>) -> (r: Result<usize, IoError>)
        requires
            old(self).wf(),
        ensures
            final(self).wf(),
            write_transition(old(self)@, final(self)@, src@, r),
    {
        let fired = self.advance();
        let ghost f1 = fired@;
        let ghost v1 = self@;
        let mut n: usize = 0;
        let mut matched = true;
        match &self.state {
            Some(State::Writing { data, pos }) => {
                let rem = data.len() - *pos;
                n = if src.len() < rem {
                    src.len()
                } else {
                    rem
                };
                let mut i: usize = 0;
                while i < n && matched
                    invariant
                        i <= n,
                        n <= src@.len(),
                        *pos + n <= data@.len(),
                        data@.len() <= usize::MAX,
                        matched ==> forall|j: int| 0 <= j < i ==> src@[j] == data@[*pos + j],
                        !matched ==> i < n && src@[i as int] != data@[*pos + i],
                    decreases n - i + if matched { 1int } else { 0int },
                {
                    if src[i] != data[*pos + i] {
                        matched = false;
                    } else {
                        i += 1;
                    }
                }
                proof {
                    if matched {
                        assert(src@.subrange(0, n as int) =~= data@.subrange(*pos as int, *pos + n));
                    } else {
                        assert(src@.subrange(0, n as int)[i as int] != data@.subrange(
                            *pos as int,
                            *pos + n,
                        )[i as int]);
                        assert(src@.subrange(0, n as int) != data@.subrange(*pos as int, *pos + n));
                    }
                }
            },
            None => {
                proof {
                    assert(write_transition_from(v1, self@, src@, Err(IoError::BrokenPipe)));
                }
                return Err(IoError::BrokenPipe);
            },
            Some(_) => {
                proof {
                    assert(write_transition_from(v1, self@, src@, Err(IoError::WouldBlock)));
                }
                return Err(IoError::WouldBlock);
            },
        }
        if !matched {
            proof {
                assert(write_transition_from(v1, self@, src@, Err(IoError::ScriptMismatch)));
            }
            return Err(IoError::ScriptMismatch);
        }
        match &mut self.state {
            Some(State::Writing { data, pos }) => {
                *pos = *pos + n;
            },
            _ => {
                proof {
                    assert(false);
                }
            },
        }
        proof {
            assert(self@ =~= bump_pos(v1, n as int));
        }
        let f2 = self.maybe_wakeup_reader();
        proof {
            assert(write_transition_from(v1, self@, src@, Ok(n)));
        }
        Ok(n)
    }

    /// Flushing a scripted stream is a no-op: nothing is buffered.
    pub fn flush(&mut self) -> (r: Result<(), IoError>)
        ensures
            r == Ok::<(), IoError>(()),
            final(self)@ == old(self)@,
    {
        Ok(())
    }
}

impl Drop for FixtureIo {
    /// Relies on std::sync::mpsc::Sender::send: fires the disposal signal
    /// exactly once, at teardown, whatever else the fixture was doing; a
    /// send to a hung-up receiver merely reports failure, which teardown
    /// ignores.
    #[verifier::external_body]
    fn drop(&mut self)
        opens_invariants none
        no_unwind
    {
        let _ = self.drop_tx.send(());
    }
}

} // verus!
