//! The fixture's behavioural laws, stated over the transition relations
//! that `read` and `write` ensure, and proved from them. Each law speaks of
//! every script and every buffer, not of chosen values.

use crate::script::AbsAction;
use crate::script::AbsActive;
use crate::script::FixtureView;
use crate::script::IoError;
use crate::script::read_transition;
use crate::script::read_transition_from;
use crate::script::spec_min;
use crate::script::step;
use crate::script::view_wf;
use crate::script::with_waiter;
use crate::script::write_transition;
use crate::script::write_transition_from;
use vstd::prelude::*;

verus! {

/// Reads reproduce the declared payload: whenever the head of the script
/// offers bytes, a read returns exactly the overlapping prefix of the
/// pending payload, from the current position, in declared order — never
/// bytes from anywhere else.
pub proof fn lemma_read_reproduces_declared_payload(
    pre: FixtureView,
    post: FixtureView,
    dst0: Seq<u8>,
    dst1: Seq<u8>,
    r: Result<usize, IoError>,
    data: Seq<u8>,
    pos: nat,
)
    requires
        view_wf(pre),
        pre.active == Some(AbsActive::Reading { data, pos }),
        pos < data.len(),
        read_transition(pre, post, dst0, dst1, r),
    ensures
        ({
            let n = spec_min(dst0.len() as int, data.len() - pos);
            &&& r matches Ok(c) && c == n
            &&& dst1.subrange(0, n) == data.subrange(pos as int, pos + n)
        }),
{
    let f = choose|f: bool| read_transition_from(step(pre, f), post, dst0, dst1, r);
    assert(step(pre, f) == pre);
    let n = spec_min(dst0.len() as int, data.len() - pos);
    assert(dst1 == data.subrange(pos as int, pos + n) + dst0.skip(n));
    assert(dst1.subrange(0, n) =~= data.subrange(pos as int, pos + n));
}

/// A write whose bytes match the scripted expectation at the current
/// position succeeds, for exactly the overlapping prefix length.
pub proof fn lemma_write_matching_prefix_succeeds(
    pre: FixtureView,
    post: FixtureView,
    src: Seq<u8>,
    r: Result<usize, IoError>,
    data: Seq<u8>,
    pos: nat,
)
    requires
        view_wf(pre),
        pre.active == Some(AbsActive::Writing { data, pos }),
        pos < data.len(),
        src.subrange(0, spec_min(src.len() as int, data.len() - pos)) == data.subrange(
            pos as int,
            pos + spec_min(src.len() as int, data.len() - pos),
        ),
        write_transition(pre, post, src, r),
    ensures
        r matches Ok(c) && c == spec_min(src.len() as int, data.len() - pos),
{
    let f = choose|f: bool| write_transition_from(step(pre, f), post, src, r);
    assert(step(pre, f) == pre);
}

/// A diverging write is the fatal script mismatch, never a silent partial
/// success: the mismatch is reported and the script does not advance at
/// all.
pub proof fn lemma_write_divergence_is_fatal(
    pre: FixtureView,
    post: FixtureView,
    src: Seq<u8>,
    r: Result<usize, IoError>,
    data: Seq<u8>,
    pos: nat,
)
    requires
        view_wf(pre),
        pre.active == Some(AbsActive::Writing { data, pos }),
        pos < data.len(),
        src.subrange(0, spec_min(src.len() as int, data.len() - pos)) != data.subrange(
            pos as int,
            pos + spec_min(src.len() as int, data.len() - pos),
        ),
        write_transition(pre, post, src, r),
    ensures
        r == Err::<usize, IoError>(IoError::ScriptMismatch),
        post == pre,
{
    let f = choose|f: bool| write_transition_from(step(pre, f), post, src, r);
    assert(step(pre, f) == pre);
}

/// A read made when nothing is active and the next scripted action offers
/// bytes promotes that action and returns exactly the overlapping prefix of
/// its payload, from the start — the declared content, in declared order.
pub proof fn lemma_read_promotes_pending_read(
    pre: FixtureView,
    post: FixtureView,
    dst0: Seq<u8>,
    dst1: Seq<u8>,
    r: Result<usize, IoError>,
    data: Seq<u8>,
)
    requires
        view_wf(pre),
        pre.active is None,
        pre.queue.len() > 0,
        pre.queue[0] == AbsAction::Read(data),
        read_transition(pre, post, dst0, dst1, r),
    ensures
        ({
            let n = spec_min(dst0.len() as int, data.len() as int);
            &&& r matches Ok(c) && c == n
            &&& dst1.subrange(0, n) == data.subrange(0, n)
        }),
{
    let f = choose|f: bool| read_transition_from(step(pre, f), post, dst0, dst1, r);
    assert(step(pre, f).active == Some(AbsActive::Reading { data, pos: 0nat }));
    let n = spec_min(dst0.len() as int, data.len() as int);
    assert(dst1 == data.subrange(0, n) + dst0.skip(n));
    assert(dst1.subrange(0, n) =~= data.subrange(0, n));
}

/// Once the script is exhausted, a read is the conventional end-of-stream:
/// a zero count, the destination untouched.
pub proof fn lemma_read_at_end_of_script_is_eof(
    pre: FixtureView,
    post: FixtureView,
    dst0: Seq<u8>,
    dst1: Seq<u8>,
    r: Result<usize, IoError>,
)
    requires
        view_wf(pre),
        pre.active is None,
        pre.queue.len() == 0,
        read_transition(pre, post, dst0, dst1, r),
    ensures
        r matches Ok(c) && c == 0,
        dst1 == dst0,
{
    let f = choose|f: bool| read_transition_from(step(pre, f), post, dst0, dst1, r);
    assert(step(pre, f) == pre);
}

/// Once the script is exhausted, a write is the permanent broken pipe: the
/// consumer is out of sync with the script, and nothing changes.
pub proof fn lemma_write_after_end_is_broken_pipe(
    pre: FixtureView,
    post: FixtureView,
    src: Seq<u8>,
    r: Result<usize, IoError>,
)
    requires
        view_wf(pre),
        pre.active is None,
        pre.queue.len() == 0,
        write_transition(pre, post, src, r),
    ensures
        r == Err::<usize, IoError>(IoError::BrokenPipe),
        post == pre,
{
    let f = choose|f: bool| write_transition_from(step(pre, f), post, src, r);
    assert(step(pre, f) == pre);
}

/// A read attempted while the head of the script is a pending write yields
/// would-block: no bytes are handed out, the script does not advance, and
/// the reader is parked for a later wakeup.
pub proof fn lemma_read_blocks_on_pending_write(
    pre: FixtureView,
    post: FixtureView,
    dst0: Seq<u8>,
    dst1: Seq<u8>,
    r: Result<usize, IoError>,
    data: Seq<u8>,
    pos: nat,
)
    requires
        view_wf(pre),
        pre.active == Some(AbsActive::Writing { data, pos }),
        pos < data.len(),
        read_transition(pre, post, dst0, dst1, r),
    ensures
        r == Err::<usize, IoError>(IoError::WouldBlock),
        dst1 == dst0,
        post == with_waiter(pre),
{
    let f = choose|f: bool| read_transition_from(step(pre, f), post, dst0, dst1, r);
    assert(step(pre, f) == pre);
}

/// A read attempted while the head of the script is a wait either finds the
/// wait unfinished — would-block, nothing handed out, nothing advanced, the
/// reader parked — or finds the timer fired, and then behaves exactly as a
/// read on the script with that wait retired.
pub proof fn lemma_read_blocks_on_unfinished_wait(
    pre: FixtureView,
    post: FixtureView,
    dst0: Seq<u8>,
    dst1: Seq<u8>,
    r: Result<usize, IoError>,
)
    requires
        view_wf(pre),
        pre.active matches Some(AbsActive::Waiting { .. }),
        read_transition(pre, post, dst0, dst1, r),
    ensures
        (r == Err::<usize, IoError>(IoError::WouldBlock) && dst1 == dst0 && post == with_waiter(
            pre,
        )) || read_transition_from(step(pre, true), post, dst0, dst1, r),
{
    let f = choose|f: bool| read_transition_from(step(pre, f), post, dst0, dst1, r);
    if !f {
        assert(step(pre, f) == pre);
    }
}

} // verus!
