use gambier::frame::{FenceWait, FrameError, FrameRing, SlotPhase, FRAMES_IN_FLIGHT};

#[test]
fn fresh_ring_starts_at_slot_zero_all_idle() {
    let ring = FrameRing::new();
    assert_eq!(ring.current_phase(), SlotPhase::Idle);
}

#[test]
fn frame_index_advances_by_one_mod_ring_length() {
    let mut ring = FrameRing::new();
    // One full cycle: each advance moves by exactly one slot, and after
    // FRAMES_IN_FLIGHT advances slot 0 is active again.
    for _ in 0..FRAMES_IN_FLIGHT {
        ring.begin_frame(FenceWait::Signaled).unwrap();
        assert_eq!(ring.current_phase(), SlotPhase::Recording);
        ring.submit();
        assert_eq!(ring.current_phase(), SlotPhase::Submitted);
        ring.advance();
    }
    // Back at slot 0: its phase is the Submitted it was left in.
    assert_eq!(ring.current_phase(), SlotPhase::Submitted);
}

#[test]
fn slot_reuse_requires_signaled_fence() {
    let mut ring = FrameRing::new();
    ring.begin_frame(FenceWait::Signaled).unwrap();
    ring.submit();
    ring.advance();
    ring.begin_frame(FenceWait::Signaled).unwrap();
    ring.submit();
    ring.advance();
    ring.begin_frame(FenceWait::Signaled).unwrap();
    ring.submit();
    ring.advance();
    // Slot 0 again, still Submitted: a timed-out wait must not reset it.
    assert_eq!(ring.current_phase(), SlotPhase::Submitted);
    assert_eq!(ring.begin_frame(FenceWait::TimedOut), Err(FrameError::SyncTimeout));
    assert_eq!(ring.current_phase(), SlotPhase::Submitted);
    // Only an observed signal lets the slot record again.
    ring.begin_frame(FenceWait::Signaled).unwrap();
    assert_eq!(ring.current_phase(), SlotPhase::Recording);
}

#[test]
fn fence_timeout_is_an_error_and_changes_nothing() {
    let mut ring = FrameRing::new();
    assert_eq!(ring.begin_frame(FenceWait::TimedOut), Err(FrameError::SyncTimeout));
    assert_eq!(ring.current_phase(), SlotPhase::Idle);
}
