//! Cycling through the frames that may be in flight at once.
//!
//! Each frame in flight owns one "image available" semaphore, one "render
//! finished" semaphore and one fence; the renderer uses the slot of the
//! current frame and then moves on to the next one, wrapping around.

use vstd::prelude::*;

verus! {

/// How many frames the renderer lets the GPU work on at the same time.
pub const MAX_FRAMES_IN_FLIGHT: usize = 2;

/// The frame slot that follows `frame`.
pub open spec fn next_frame(frame: nat) -> nat {
    ((frame + 1) % (MAX_FRAMES_IN_FLIGHT as nat)) as nat
}

/// The frame slot reached from `frame` after `steps` frames were drawn.
pub open spec fn frame_after(frame: nat, steps: nat) -> nat
    decreases steps,
{
    if steps == 0 {
        frame
    } else {
        next_frame(frame_after(frame, (steps - 1) as nat))
    }
}

/// The index of the frame whose synchronisation objects are used next.
pub struct FrameCycle {
    current: usize,
}

impl View for FrameCycle {
    type V = nat;

    closed spec fn view(&self) -> nat {
        self.current as nat
    }
}

impl FrameCycle {
    #[verifier::type_invariant]
    spec fn in_range(self) -> bool {
        self.current < MAX_FRAMES_IN_FLIGHT
    }

    /// The cycle starts at the first frame slot.
    pub fn new() -> (cycle: FrameCycle)
        ensures
            cycle@ == 0,
    {
        FrameCycle { current: 0 }
    }

    /// The slot of the frame being drawn; always below `MAX_FRAMES_IN_FLIGHT`.
    pub fn current(&self) -> (frame: usize)
        ensures
            frame == self@,
            frame < MAX_FRAMES_IN_FLIGHT,
    {
        proof {
            use_type_invariant(self);
        }
        self.current
    }

    /// Moves on to the next slot once a frame has been submitted.
    pub fn advance(&mut self)
        ensures
            final(self)@ == next_frame(old(self)@),
            final(self)@ < MAX_FRAMES_IN_FLIGHT,
            old(self)@ + 1 < MAX_FRAMES_IN_FLIGHT ==> final(self)@ == old(self)@ + 1,
            old(self)@ + 1 == MAX_FRAMES_IN_FLIGHT ==> final(self)@ == 0,
    {
        proof {
            use_type_invariant(&*self);
        }
        self.current = (self.current + 1) % MAX_FRAMES_IN_FLIGHT;
    }
}

/// Drawing `steps` frames from slot `frame` lands on slot
/// `(frame + steps) % MAX_FRAMES_IN_FLIGHT`.
pub proof fn lemma_frame_after(frame: nat, steps: nat)
    requires
        frame < MAX_FRAMES_IN_FLIGHT,
    ensures
        frame_after(frame, steps) == (frame + steps) % (MAX_FRAMES_IN_FLIGHT as nat),
    decreases steps,
{
    if steps > 0 {
        lemma_frame_after(frame, (steps - 1) as nat);
        let prev = (frame + steps - 1) % (MAX_FRAMES_IN_FLIGHT as int);
        assert(((prev + 1) % 2) == ((frame + steps) % 2)) by (nonlinear_arith)
            requires
                prev == (frame + steps - 1) % 2,
                steps > 0,
        ;
    }
}

/// After `MAX_FRAMES_IN_FLIGHT` frames the cycle is back at the slot it
/// started from, so every slot is reused in turn.
pub proof fn lemma_cycle_returns(frame: nat)
    requires
        frame < MAX_FRAMES_IN_FLIGHT,
    ensures
        frame_after(frame, MAX_FRAMES_IN_FLIGHT as nat) == frame,
{
    lemma_frame_after(frame, MAX_FRAMES_IN_FLIGHT as nat);
}

/// The next slot is the following one, and the first slot again after the
/// last.
pub proof fn lemma_next_frame_steps(frame: nat)
    requires
        frame < MAX_FRAMES_IN_FLIGHT,
    ensures
        frame + 1 < MAX_FRAMES_IN_FLIGHT ==> next_frame(frame) == frame + 1,
        frame + 1 == MAX_FRAMES_IN_FLIGHT ==> next_frame(frame) == 0,
{
}

/// Two consecutive frames never share a slot, so the next frame never waits
/// on the fence that the frame just submitted signals.
pub proof fn lemma_next_frame_differs(frame: nat)
    requires
        frame < MAX_FRAMES_IN_FLIGHT,
    ensures
        next_frame(frame) != frame,
        next_frame(frame) < MAX_FRAMES_IN_FLIGHT,
{
}

} // verus!
