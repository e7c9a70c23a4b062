//! The surface ring: three role indices and a handoff flag.
//!
//! Three GPU surfaces rotate through three roles: `render` (the producer is
//! writing into it), `pending` (a completed frame waiting to change hands,
//! or a spare), and `display` (the consumer is reading from it). The two
//! swap operations — producer commit and consumer acquire — both go through
//! the `pending` slot, so the producer and the consumer never hold the same
//! surface. The caller runs each operation inside one exclusive critical
//! section; the operations themselves are O(1) bookkeeping and make no GPU
//! calls.

use vstd::prelude::*;

verus! {

/// The abstract state of the ring: which surface index each role holds,
/// and whether a completed frame is waiting to be claimed.
pub struct RingView {
    pub render: int,
    pub pending: int,
    pub display: int,
    pub handoff: bool,
}

/// The ring is well formed when the three roles hold three distinct surface
/// indices out of 0, 1, 2 — a permutation, so the surface being displayed is
/// never the surface being written.
pub open spec fn ring_wf(v: RingView) -> bool {
    &&& 0 <= v.render < 3
    &&& 0 <= v.pending < 3
    &&& 0 <= v.display < 3
    &&& v.render != v.pending
    &&& v.pending != v.display
    &&& v.render != v.display
}

/// The producer has finished a frame: the just-filled surface moves from
/// `render` into `pending`, the old `pending` surface becomes the next
/// render target, and the handoff flag is raised. If the consumer never
/// claimed the previous `pending` frame, that frame is silently dropped:
/// the most recent completed frame always wins.
pub open spec fn commit_step(v: RingView) -> RingView {
    RingView { render: v.pending, pending: v.render, display: v.display, handoff: true }
}

/// The consumer polls for a new frame: if the handoff flag is up, `pending`
/// and `display` change places and the flag is cleared; otherwise nothing
/// moves.
pub open spec fn acquire_step(v: RingView) -> RingView {
    if v.handoff {
        RingView { render: v.render, pending: v.display, display: v.pending, handoff: false }
    } else {
        v
    }
}

/// One operation on the ring, for reasoning about arbitrary interleavings
/// of the two threads' calls.
pub enum RingOp {
    Commit,
    Acquire,
}

/// The ring state after one operation.
pub open spec fn ring_step(v: RingView, op: RingOp) -> RingView {
    match op {
        RingOp::Commit => commit_step(v),
        RingOp::Acquire => acquire_step(v),
    }
}

/// The ring state after a whole sequence of operations, applied in order.
pub open spec fn ring_run(v: RingView, ops: Seq<RingOp>) -> RingView
    decreases ops.len(),
{
    if ops.len() == 0 {
        v
    } else {
        ring_run(ring_step(v, ops[0]), ops.drop_first())
    }
}

/// The ring state after `n` producer commits in a row.
pub open spec fn run_commits(v: RingView, n: nat) -> RingView
    decreases n,
{
    if n == 0 {
        v
    } else {
        commit_step(run_commits(v, (n - 1) as nat))
    }
}

/// Law: every reachable ring state holds a permutation of the three surface
/// indices. Any sequence of producer commits and consumer acquires, applied
/// to a well-formed ring, leaves the ring well formed.
pub proof fn lemma_ring_ops_preserve_wf(v: RingView, ops: Seq<RingOp>)
    requires
        ring_wf(v),
    ensures
        ring_wf(ring_run(v, ops)),
    decreases ops.len(),
{
    if ops.len() > 0 {
        lemma_ring_ops_preserve_wf(ring_step(v, ops[0]), ops.drop_first());
    }
}

/// Law: after one or more producer commits with no interleaving acquire, a
/// consumer acquire finds the handoff flag up, and walks away displaying
/// exactly the surface the last commit filled — the surface that was in the
/// `render` role just before that final commit. Earlier commits in the run
/// are dropped, not queued.
pub proof fn lemma_acquire_sees_last_commit(v: RingView, n: nat)
    requires
        ring_wf(v),
        n >= 1,
    ensures
        run_commits(v, n).handoff,
        acquire_step(run_commits(v, n)).display == run_commits(v, (n - 1) as nat).render,
{
}

/// Law: two consumer acquires in a row with no commit in between report a
/// change at most once: the first acquire clears the handoff flag, so the
/// second finds it down and leaves the ring exactly as it was.
pub proof fn lemma_second_acquire_is_noop(v: RingView)
    requires
        ring_wf(v),
    ensures
        !acquire_step(v).handoff,
        acquire_step(acquire_step(v)) == acquire_step(v),
{
}

/// The concrete ring the two threads share. The caller wraps it (together
/// with the rest of the session) in its exclusive critical section; see the
/// module doc.
pub struct SurfaceRing {
    render: usize,
    pending: usize,
    display: usize,
    handoff: bool,
}

impl View for SurfaceRing {
    type V = RingView;

    closed spec fn view(&self) -> RingView {
        RingView {
            render: self.render as int,
            pending: self.pending as int,
            display: self.display as int,
            handoff: self.handoff,
        }
    }
}

impl SurfaceRing {
    /// A fresh ring: the producer writes surface 0, surface 1 stands by for
    /// the first exchange, the consumer reads surface 2, and no frame is
    /// waiting.
    pub fn new() -> (r: SurfaceRing)
        ensures
            ring_wf(r@),
            r@ == (RingView { render: 0, pending: 1, display: 2, handoff: false }),
    {
        SurfaceRing { render: 0, pending: 1, display: 2, handoff: false }
    }

    /// The index of the surface the producer is currently writing into.
    pub fn render_index(&self) -> (i: usize)
        ensures
            i == self@.render,
    {
        self.render
    }

    /// The index of the surface standing by in the `pending` slot.
    pub fn pending_index(&self) -> (i: usize)
        ensures
            i == self@.pending,
    {
        self.pending
    }

    /// The index of the surface the consumer is currently reading from.
    pub fn display_index(&self) -> (i: usize)
        ensures
            i == self@.display,
    {
        self.display
    }

    /// Whether a completed frame is waiting to be claimed by the consumer.
    pub fn has_pending_frame(&self) -> (b: bool)
        ensures
            b == self@.handoff,
    {
        self.handoff
    }

    /// Producer side: hand the just-finished surface over. Called after the
    /// producer has issued all GPU draw commands for the frame; performs
    /// only the `pending`/`render` exchange and raises the handoff flag.
    pub fn producer_commit(&mut self)
        requires
            ring_wf(old(self)@),
        ensures
            ring_wf(final(self)@),
            final(self)@ == commit_step(old(self)@),
    {
        let t = self.pending;
        self.pending = self.render;
        self.render = t;
        self.handoff = true;
    }

    /// Consumer side: claim the newest completed frame if one is waiting.
    /// Returns whether `display` changed; when it did not, the previous
    /// frame simply stays on screen — "no frame yet" is a normal steady
    /// state, not an error.
    pub fn consumer_acquire(&mut self) -> (changed: bool)
        requires
            ring_wf(old(self)@),
        ensures
            ring_wf(final(self)@),
            changed == old(self)@.handoff,
            final(self)@ == acquire_step(old(self)@),
    {
        if self.handoff {
            let t = self.pending;
            self.pending = self.display;
            self.display = t;
            self.handoff = false;
            true
        } else {
            false
        }
    }
}

} // verus!
