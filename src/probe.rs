//! The decisions of one allocation request, as a state machine.
//!
//! A request starts with [`Probe::start`], which names the first delegate call.
//! The caller performs each [`Action`] against the delegate and feeds the answer
//! back through [`Probe::step`], until an `Action::Finish` names the address to
//! hand out. Blocks that the machine neither frees nor returns stay allocated
//! for good: they are the poison that lifts the delegate above the threshold.
//!
//! When the delegate's first answer does not already lie wholly above the
//! threshold, low space is consumed in two phases. The coarse phase asks for
//! chunks of 128 MiB: a chunk that lies wholly below the threshold is kept, any
//! other is given back and the size halved, until it falls below one byte. The
//! caller's first block is then given back, and the precise phase asks for the
//! caller's exact layout until an answer lies wholly above the threshold; every
//! other answer is kept (a failure is simply asked again).
use vstd::prelude::*;
use crate::Layout;
use crate::boundary::{alloc_fully_above_2g, alloc_fully_below_2g, range_above, range_below};

verus! {

/// The chunk size that coarse consumption starts from: 128 MiB.
pub const FIRST_CHUNK: usize = 0x800_0000;

/// What the driver of a request does next.
#[derive(Clone, Copy, Debug, PartialEq, Eq, Structural)]
pub enum Action {
    /// Ask the delegate for a block of this layout, then pass the address it
    /// returned (zero for a failure) to `step`.
    Allocate(Layout),
    /// Give this block back to the delegate, then call `step` (its argument is
    /// then ignored).
    Deallocate(usize, Layout),
    /// Hand this address to the caller; zero reports failure.
    Finish(usize),
}

/// Where a request stands.
#[derive(Clone, Copy, Debug, PartialEq, Eq, Structural)]
pub enum Phase {
    /// Awaiting the delegate's answer to the caller's own layout.
    First,
    /// Awaiting a coarse chunk of `chunk` bytes; `first` is the caller's
    /// disqualified block, still allocated.
    Coarse { chunk: usize, first: usize },
    /// A rejected chunk of `chunk` bytes is being given back.
    Shrink { chunk: usize, first: usize },
    /// The caller's disqualified block is being given back.
    Release,
    /// Awaiting a block of the caller's exact layout.
    Precise,
    /// The request is over, with this answer.
    Done { addr: usize },
}

/// The state of one allocation request.
#[derive(Clone, Copy, Debug, PartialEq, Eq, Structural)]
pub struct Probe {
    pub layout: Layout,
    pub phase: Phase,
}

/// The layout of a coarse chunk: `chunk` bytes, byte-aligned.
pub open spec fn chunk_layout(chunk: usize) -> Layout {
    Layout { size: chunk, align: 1 }
}

/// The answer `addr` to a request for `layout` may be handed out: it is the
/// failure value zero, or its whole range lies above the threshold.
pub open spec fn acceptable(addr: usize, layout: Layout) -> bool {
    addr == 0 || range_above(addr as int, layout.size as int)
}

/// A request and the action that opens it.
pub open spec fn initial(layout: Layout) -> (Probe, Action) {
    (Probe { layout, phase: Phase::First }, Action::Allocate(layout))
}

/// After a chunk of `chunk` bytes was turned down: try half the size, or, once
/// that is below one byte, give back the caller's first block.
pub open spec fn halve(layout: Layout, chunk: usize, first: usize) -> (Phase, Action) {
    if chunk / 2 == 0 {
        (Phase::Release, Action::Deallocate(first, layout))
    } else {
        (Phase::Coarse { chunk: chunk / 2, first }, Action::Allocate(chunk_layout(chunk / 2)))
    }
}

/// The step taken from `p` on the delegate's answer `reply`.
pub open spec fn transition(p: Probe, reply: usize) -> (Probe, Action) {
    let layout = p.layout;
    let (phase, action) = match p.phase {
        Phase::First => {
            if reply == 0 {
                (Phase::Done { addr: 0 }, Action::Finish(0))
            } else if range_above(reply as int, layout.size as int) {
                (Phase::Done { addr: reply }, Action::Finish(reply))
            } else {
                (
                    Phase::Coarse { chunk: FIRST_CHUNK, first: reply },
                    Action::Allocate(chunk_layout(FIRST_CHUNK)),
                )
            }
        },
        Phase::Coarse { chunk, first } => {
            if reply != 0 && chunk >= 1 && range_below(reply as int, chunk as int) {
                (Phase::Coarse { chunk, first }, Action::Allocate(chunk_layout(chunk)))
            } else if reply != 0 {
                (Phase::Shrink { chunk, first }, Action::Deallocate(reply, chunk_layout(chunk)))
            } else {
                halve(layout, chunk, first)
            }
        },
        Phase::Shrink { chunk, first } => halve(layout, chunk, first),
        Phase::Release => (Phase::Precise, Action::Allocate(layout)),
        Phase::Precise => {
            if reply != 0 && range_above(reply as int, layout.size as int) {
                (Phase::Done { addr: reply }, Action::Finish(reply))
            } else {
                (Phase::Precise, Action::Allocate(layout))
            }
        },
        Phase::Done { addr } => (Phase::Done { addr }, Action::Finish(addr)),
    };
    (Probe { layout, phase }, action)
}

impl Probe {
    /// Opens a request for `layout`: the first action asks the delegate for
    /// exactly that layout.
    pub fn start(layout: Layout) -> (r: (Probe, Action))
        ensures
            r == initial(layout),
    {
        (Probe { layout, phase: Phase::First }, Action::Allocate(layout))
    }

    /// Takes the delegate's answer to the last action and returns the next one.
    ///
    /// `reply` is the address the delegate returned for the last
    /// `Action::Allocate`, zero where it failed; after an `Action::Deallocate`
    /// it carries nothing.
    pub fn step(&mut self, reply: usize) -> (r: Action)
        ensures
            (*final(self), r) == transition(*old(self), reply),
    {
        let layout = self.layout;
        let (phase, action) = match self.phase {
            Phase::First => {
                if reply == 0 {
                    (Phase::Done { addr: 0 }, Action::Finish(0))
                } else if alloc_fully_above_2g(reply, layout) {
                    (Phase::Done { addr: reply }, Action::Finish(reply))
                } else {
                    (
                        Phase::Coarse { chunk: FIRST_CHUNK, first: reply },
                        Action::Allocate(Layout { size: FIRST_CHUNK, align: 1 }),
                    )
                }
            },
            Phase::Coarse { chunk, first } => {
                let chunk_shape = Layout { size: chunk, align: 1 };
                if reply != 0 && chunk >= 1 && alloc_fully_below_2g(reply, chunk_shape) {
                    // keep the chunk: it fills low address space for good
                    (Phase::Coarse { chunk, first }, Action::Allocate(chunk_shape))
                } else if reply != 0 {
                    (Phase::Shrink { chunk, first }, Action::Deallocate(reply, chunk_shape))
                } else {
                    Self::halve(layout, chunk, first)
                }
            },
            Phase::Shrink { chunk, first } => Self::halve(layout, chunk, first),
            Phase::Release => (Phase::Precise, Action::Allocate(layout)),
            Phase::Precise => {
                if reply != 0 && alloc_fully_above_2g(reply, layout) {
                    (Phase::Done { addr: reply }, Action::Finish(reply))
                } else {
                    // keep the block, whatever it straddles, and ask again
                    (Phase::Precise, Action::Allocate(layout))
                }
            },
            Phase::Done { addr } => (Phase::Done { addr }, Action::Finish(addr)),
        };
        self.phase = phase;
        action
    }

    fn halve(layout: Layout, chunk: usize, first: usize) -> (r: (Phase, Action))
        ensures
            r == halve(layout, chunk, first),
    {
        let half = chunk / 2;
        if half == 0 {
            (Phase::Release, Action::Deallocate(first, layout))
        } else {
            (Phase::Coarse { chunk: half, first }, Action::Allocate(Layout { size: half, align: 1 }))
        }
    }
}

} // verus!

verus! {

/// Every state a request passes through is consistent: once it is over, its
/// answer may be handed out.
pub open spec fn consistent(p: Probe) -> bool {
    p.phase matches Phase::Done { addr } ==> acceptable(addr, p.layout)
}

/// The state and the action of a request for `layout` after the delegate has
/// answered `replies`, in order.
pub open spec fn after(layout: Layout, replies: Seq<usize>) -> (Probe, Action)
    decreases replies.len(),
{
    if replies.len() == 0 {
        initial(layout)
    } else {
        transition(after(layout, replies.drop_last()).0, replies.last())
    }
}

/// The answer `reply` is a block that the step from `p` keeps for good as poison.
pub open spec fn leaks(p: Probe, reply: usize) -> bool {
    reply != 0 && match p.phase {
        Phase::Coarse { chunk, .. } => chunk >= 1 && range_below(reply as int, chunk as int),
        Phase::Precise => !range_above(reply as int, p.layout.size as int),
        _ => false,
    }
}

/// A step from a consistent state keeps it consistent, and any address it
/// finishes with may be handed out.
pub proof fn lemma_step_keeps_consistent(p: Probe, reply: usize)
    requires
        consistent(p),
    ensures
        consistent(transition(p, reply).0),
        transition(p, reply).0.layout == p.layout,
        transition(p, reply).1 matches Action::Finish(a) ==> acceptable(a, p.layout),
{
}

/// Whatever the delegate answers, and in whatever order (other threads only
/// change what it answers), every address a request finishes with is zero or
/// lies wholly above the threshold.
pub proof fn lemma_every_answer_qualifies(layout: Layout, replies: Seq<usize>)
    ensures
        consistent(after(layout, replies).0),
        after(layout, replies).0.layout == layout,
        after(layout, replies).1 matches Action::Finish(a) ==> acceptable(a, layout),
    decreases replies.len(),
{
    if replies.len() > 0 {
        lemma_every_answer_qualifies(layout, replies.drop_last());
        lemma_step_keeps_consistent(after(layout, replies.drop_last()).0, replies.last());
    }
}

/// When the delegate fails the caller's own request, the request fails at once
/// and asks the delegate for nothing more, whatever further answers come.
pub proof fn lemma_oom_passthrough(layout: Layout, replies: Seq<usize>)
    requires
        replies.len() >= 1,
        replies[0] == 0,
    ensures
        after(layout, replies) == (Probe { layout, phase: Phase::Done { addr: 0 } }, Action::Finish(0)),
    decreases replies.len(),
{
    if replies.len() > 1 {
        assert(replies.drop_last()[0] == 0);
        lemma_oom_passthrough(layout, replies.drop_last());
    } else {
        assert(replies.drop_last() =~= Seq::<usize>::empty());
        assert(after(layout, replies.drop_last()) == initial(layout));
    }
}

/// A block kept as poison is neither handed out nor given back: the step only
/// asks the delegate for more, and the request's state is left as it was, so
/// nothing it does later refers to that block.
pub proof fn lemma_leak_forgotten(p: Probe, reply: usize)
    requires
        leaks(p, reply),
    ensures
        transition(p, reply).0 == p,
        transition(p, reply).1 is Allocate,
{
}

/// When the delegate's first answer already lies wholly above the threshold,
/// the request ends with it at once, with no poisoning.
pub proof fn lemma_fast_path(layout: Layout, addr: usize)
    requires
        addr != 0,
        range_above(addr as int, layout.size as int),
    ensures
        after(layout, seq![addr]) == (Probe { layout, phase: Phase::Done { addr } }, Action::Finish(addr)),
{
    assert(seq![addr].drop_last() =~= Seq::<usize>::empty());
    assert(after(layout, seq![addr].drop_last()) == initial(layout));
}

} // verus!
