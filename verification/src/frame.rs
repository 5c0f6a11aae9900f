//! The frame ring: bounded frames in flight.
//!
//! The ring holds a fixed number of slots, each owning one command buffer
//! and its synchronization primitives, cycled round-robin by a frame index.
//! A slot moves `Idle -> Recording -> Submitted -> Idle`; the move back to
//! `Idle` happens only when the slot's render fence has been observed
//! signaled, which is the sole backpressure bounding how many frames may be
//! in flight. A fence wait that times out is fatal, never retried.

use vstd::prelude::*;

verus! {

/// Number of frame slots, and so the bound on frames in flight.
pub const FRAMES_IN_FLIGHT: usize = 3;

/// Lifecycle of one frame slot.
#[derive(Clone, Copy, Debug, PartialEq, Eq, Structural)]
pub enum SlotPhase {
    /// Previous work (if any) observed complete; command buffer reusable.
    Idle,
    /// Command buffer reset and recording this frame's work.
    Recording,
    /// Work submitted; the render fence will signal its completion.
    Submitted,
}

/// Host-observed outcome of waiting on a slot's render fence.
#[derive(Clone, Copy, Debug, PartialEq, Eq, Structural)]
pub enum FenceWait {
    /// The fence signaled within the timeout.
    Signaled,
    /// The wait exceeded the large fixed timeout: the device is treated as
    /// hung and the frame fails fatally.
    TimedOut,
}

/// The error a frame operation reports when a fence wait timed out.
#[derive(Clone, Copy, Debug, PartialEq, Eq, Structural)]
pub enum FrameError {
    /// A fence wait exceeded its timeout; fatal, not retried.
    SyncTimeout,
}

/// One slot of the ring.
#[derive(Clone, Copy, Debug, PartialEq, Eq, Structural)]
pub struct FrameSlot {
    /// Where the slot stands in its lifecycle.
    pub phase: SlotPhase,
}

/// The successor of a frame index in the ring.
pub open spec fn next_frame_index(i: int) -> int {
    if i + 1 == FRAMES_IN_FLIGHT {
        0
    } else {
        i + 1
    }
}

/// The ring of frame slots with the index of the active slot.
pub struct FrameRing {
    slots: Vec<FrameSlot>,
    frame_index: usize,
}

impl FrameRing {
    /// Phases of the slots, in ring order.
    pub closed spec fn view(&self) -> Seq<FrameSlot> {
        self.slots@
    }

    /// Index of the active slot.
    pub closed spec fn spec_frame_index(&self) -> usize {
        self.frame_index
    }

    /// The ring always holds exactly `FRAMES_IN_FLIGHT` slots and the
    /// frame index always lies inside the ring.
    pub open spec fn wf(&self) -> bool {
        &&& self@.len() == FRAMES_IN_FLIGHT
        &&& self.spec_frame_index() < FRAMES_IN_FLIGHT
    }

    /// A fresh ring: the active slot is slot 0 and every slot is idle,
    /// its render fence created already signaled.
    pub fn new() -> (ring: FrameRing)
        ensures
            ring.wf(),
            ring.spec_frame_index() == 0,
            forall|i: int| 0 <= i < FRAMES_IN_FLIGHT ==> ring@[i].phase is Idle,
    {
        let mut slots: Vec<FrameSlot> = Vec::new();
        let mut i: usize = 0;
        while i < FRAMES_IN_FLIGHT
            invariant
                i <= FRAMES_IN_FLIGHT,
                slots@.len() == i,
                forall|j: int| 0 <= j < i ==> slots@[j].phase is Idle,
            decreases FRAMES_IN_FLIGHT - i,
        {
            slots.push(FrameSlot { phase: SlotPhase::Idle });
            i = i + 1;
        }
        FrameRing { slots, frame_index: 0 }
    }

    /// Index of the active slot.
    pub fn frame_index(&self) -> (i: usize)
        ensures
            i == self.spec_frame_index(),
    {
        self.frame_index
    }

    /// Phase of the active slot.
    pub fn current_phase(&self) -> (p: SlotPhase)
        requires
            self.wf(),
        ensures
            p == self@[self.spec_frame_index() as int].phase,
    {
        self.slots[self.frame_index].phase
    }

    /// Begin the active slot's frame. The caller first waits on the slot's
    /// render fence and passes the observed outcome: only a signaled fence
    /// lets the slot be reset and reused; a timeout is fatal and changes
    /// nothing. A slot already recording may not begin again.
    pub fn begin_frame(&mut self, wait: FenceWait) -> (r: Result<(), FrameError>)
        requires
            old(self).wf(),
            !(old(self)@[old(self).spec_frame_index() as int].phase is Recording),
        ensures
            final(self).wf(),
            final(self).spec_frame_index() == old(self).spec_frame_index(),
            r is Ok <==> wait is Signaled,
            wait is Signaled ==> final(self)@ == old(self)@.update(
                old(self).spec_frame_index() as int,
                FrameSlot { phase: SlotPhase::Recording },
            ),
            wait is TimedOut ==> final(self)@ == old(self)@ && r == Err::<(), FrameError>(
                FrameError::SyncTimeout,
            ),
    {
        match wait {
            FenceWait::Signaled => {
                self.slots.set(self.frame_index, FrameSlot { phase: SlotPhase::Recording });
                Ok(())
            },
            FenceWait::TimedOut => Err(FrameError::SyncTimeout),
        }
    }

    /// Submit the active slot's recorded work: the slot's render fence is
    /// handed to the queue and will signal completion.
    pub fn submit(&mut self)
        requires
            old(self).wf(),
            old(self)@[old(self).spec_frame_index() as int].phase is Recording,
        ensures
            final(self).wf(),
            final(self).spec_frame_index() == old(self).spec_frame_index(),
            final(self)@ == old(self)@.update(
                old(self).spec_frame_index() as int,
                FrameSlot { phase: SlotPhase::Submitted },
            ),
    {
        self.slots.set(self.frame_index, FrameSlot { phase: SlotPhase::Submitted });
    }

    /// Advance to the next slot, round-robin: the frame index moves by
    /// exactly one, modulo the ring length.
    pub fn advance(&mut self)
        requires
            old(self).wf(),
        ensures
            final(self).wf(),
            final(self)@ == old(self)@,
            final(self).spec_frame_index() == next_frame_index(
                old(self).spec_frame_index() as int,
            ),
    {
        if self.frame_index + 1 == FRAMES_IN_FLIGHT {
            self.frame_index = 0;
        } else {
            self.frame_index = self.frame_index + 1;
        }
    }
}

/// Advancing the ring `FRAMES_IN_FLIGHT` times returns to the slot it
/// started at, and never leaves the ring: each step stays below
/// `FRAMES_IN_FLIGHT`, and after the full cycle slot `i` is active again.
pub proof fn lemma_ring_cycle(i: int)
    requires
        0 <= i < FRAMES_IN_FLIGHT,
    ensures
        0 <= next_frame_index(i) < FRAMES_IN_FLIGHT,
        next_frame_index(next_frame_index(next_frame_index(i))) == i,
{
}

} // verus!
