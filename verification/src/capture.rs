//! Rebuilding a script from a capture: an ordered sequence of directional,
//! timestamped data blocks recorded from a real session. A block the peer
//! sent us becomes a `Write` expectation; a block we sent the peer becomes
//! a `Wait` for the time that passed since the previous block, then a
//! `Read` of its payload. Timestamps that run backwards make the capture
//! malformed, and construction fails rather than clamping the delta.

use crate::fixture::FixtureIo;
use crate::script::AbsAction;
use crate::script::initial_view;
use vstd::prelude::*;

verus! {

/// Which side produced a captured block.
#[derive(Clone, Copy, Debug, PartialEq, Eq, Structural)]
pub enum BlockDirection {
    PeerToUs,
    UsToPeer,
}

/// One captured block: its direction, the time since the start of the
/// capture at which it was recorded, and its payload.
pub struct CaptureBlock {
    pub direction: BlockDirection,
    pub elapsed_ms: u64,
    pub data: Vec<u8>,
}

/// A captured block, as the model sees it.
pub ghost struct AbsBlock {
    pub peer_to_us: bool,
    pub elapsed_ms: u64,
    pub data: Seq<u8>,
}

impl View for CaptureBlock {
    type V = AbsBlock;

    closed spec fn view(&self) -> AbsBlock {
        AbsBlock {
            peer_to_us: self.direction is PeerToUs,
            elapsed_ms: self.elapsed_ms,
            data: self.data@,
        }
    }
}

/// The one way construction from a capture can fail: a block recorded
/// earlier than its predecessor, which would call for a negative wait.
#[derive(Clone, Copy, Debug, PartialEq, Eq, Structural)]
pub enum CaptureError {
    OutOfOrderTimestamp,
}

/// The capture, block by block, as the model sees it.
pub open spec fn views_of(blocks: Seq<CaptureBlock>) -> Seq<AbsBlock> {
    blocks.map_values(|b: CaptureBlock| b@)
}

/// The exact translation of a capture into a script, `last` being the
/// timestamp of the previous block: peer-to-us becomes a `Write`; us-to-peer
/// becomes a `Wait` of the elapsed delta then a `Read`; a backwards
/// timestamp where a delta is taken makes the whole capture malformed.
pub open spec fn translate(blocks: Seq<AbsBlock>, last: u64) -> Option<Seq<AbsAction>>
    decreases blocks.len(),
{
    if blocks.len() == 0 {
        Some(Seq::<AbsAction>::empty())
    } else {
        let b = blocks[0];
        if b.peer_to_us {
            match translate(blocks.skip(1), b.elapsed_ms) {
                Some(rest) => Some(seq![AbsAction::Write(b.data)] + rest),
                None => None,
            }
        } else if b.elapsed_ms < last {
            None
        } else {
            match translate(blocks.skip(1), b.elapsed_ms) {
                Some(rest) => Some(
                    seq![
                        AbsAction::Wait((b.elapsed_ms - last) as u64),
                        AbsAction::Read(b.data),
                    ] + rest,
                ),
                None => None,
            }
        }
    }
}

impl FixtureIo {
    /// Builds a fixture whose script is the translation of the given
    /// capture, or reports the capture malformed when its timestamps run
    /// backwards where a delta is taken.
    pub fn load(blocks: Vec<CaptureBlock>) -> (r: Result<FixtureIo, CaptureError>)
        ensures
            match translate(views_of(blocks@), 0) {
                Some(script) => r matches Ok(fx) && fx@ == initial_view(script) && fx.wf(),
                None => r == Err::<FixtureIo, CaptureError>(CaptureError::OutOfOrderTimestamp),
            },
    {
        let ghost all = views_of(blocks@);
        let mut rem = blocks;
        let mut ret = FixtureIo::empty();
        let mut last: u64 = 0;
        proof {
            assert(views_of(rem@) =~= all);
            if translate(all, 0) is Some {
                assert(ret@.queue + translate(all, 0).unwrap() =~= translate(all, 0).unwrap());
            }
        }
        while rem.len() > 0
            invariant
                all == views_of(blocks@),
                ret.wf(),
                ret@.active is None,
                !ret@.waiter,
                ret@.receiver_present,
                translate(all, 0) == (match translate(views_of(rem@), last) {
                    Some(rest) => Some(ret@.queue + rest),
                    None => None::<Seq<AbsAction>>,
                }),
            decreases rem.len(),
        {
            let ghost rem0 = views_of(rem@);
            let ghost q0 = ret@.queue;
            let b = rem.remove(0);
            proof {
                assert(views_of(rem@) =~= rem0.skip(1));
            }
            match b.direction {
                BlockDirection::PeerToUs => {
                    ret = ret.then_write(b.data);
                    proof {
                        if translate(rem0.skip(1), b@.elapsed_ms) is Some {
                            let rest = translate(rem0.skip(1), b@.elapsed_ms).unwrap();
                            assert(ret@.queue + rest =~= q0 + (seq![
                                AbsAction::Write(b@.data),
                            ] + rest));
                        }
                    }
                },
                BlockDirection::UsToPeer => {
                    if b.elapsed_ms < last {
                        proof {
                            assert(rem0[0] == b@);
                            assert(translate(rem0, last) is None);
                        }
                        return Err(CaptureError::OutOfOrderTimestamp);
                    }
                    let wait = b.elapsed_ms - last;
                    ret = ret.then_wait(wait);
                    ret = ret.then_read(b.data);
                    proof {
                        if translate(rem0.skip(1), b@.elapsed_ms) is Some {
                            let rest = translate(rem0.skip(1), b@.elapsed_ms).unwrap();
                            assert(ret@.queue + rest =~= q0 + (seq![
                                AbsAction::Wait(wait),
                                AbsAction::Read(b@.data),
                            ] + rest));
                        }
                    }
                },
            }
            last = b.elapsed_ms;
        }
        proof {
            assert(views_of(rem@) =~= Seq::<AbsBlock>::empty());
            assert(ret@.queue + Seq::<AbsAction>::empty() =~= ret@.queue);
            assert(ret@ =~= initial_view(ret@.queue));
        }
        Ok(ret)
    }
}

} // verus!
