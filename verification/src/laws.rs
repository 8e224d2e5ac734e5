//! Laws of the event handler over whole event sequences.

use vstd::prelude::*;

use crate::events::{CameraOp, Event, Outcome};
use crate::state::{spec_handle, SupportView};

verus! {

/// Run the handler over a whole event sequence: the state after all
/// events, and the outcome of each event in order.
pub open spec fn spec_run(s: SupportView, evs: Seq<Event>) -> (SupportView, Seq<Outcome>)
    decreases evs.len(),
{
    if evs.len() == 0 {
        (s, Seq::empty())
    } else {
        let (s1, o) = spec_handle(s, evs[0]);
        let (sf, os) = spec_run(s1, evs.drop_first());
        (sf, seq![o] + os)
    }
}

/// One event asks to quit exactly when it is `Close`, whatever the
/// state.
pub proof fn lemma_handle_quit_iff_close(s: SupportView, ev: Event)
    ensures
        spec_handle(s, ev).1.quit <==> ev is Close,
{
}

/// The handler never changes the camera lock, and while the lock is
/// held only a resize produces a camera operation (the screen-size
/// update); drag and wheel events leave the camera untouched.
pub proof fn lemma_handle_locked(s: SupportView, ev: Event)
    ensures
        spec_handle(s, ev).0.camera_lock == s.camera_lock,
        s.camera_lock && !(ev is Resized) ==> spec_handle(s, ev).1.camera_op is None,
{
}

/// Over any event sequence there is one outcome per event, and an
/// outcome asks to quit exactly when its event was `Close`. In
/// particular, a sequence without `Close` never asks to quit, and a
/// `Close` always does, regardless of prior state.
pub proof fn lemma_run_quit_iff_close(s: SupportView, evs: Seq<Event>)
    ensures
        spec_run(s, evs).1.len() == evs.len(),
        forall|i: int|
            0 <= i < evs.len() ==> ((#[trigger] spec_run(s, evs).1[i]).quit <==> evs[i] is Close),
    decreases evs.len(),
{
    if evs.len() > 0 {
        let (s1, o) = spec_handle(s, evs[0]);
        lemma_handle_quit_iff_close(s, evs[0]);
        lemma_run_quit_iff_close(s1, evs.drop_first());
        assert forall|i: int| 0 <= i < evs.len() implies ((#[trigger] spec_run(s, evs).1[i]).quit
            <==> evs[i] is Close) by {
            if i > 0 {
                assert(spec_run(s, evs).1[i] == spec_run(s1, evs.drop_first()).1[i - 1]);
                assert(evs[i] == evs.drop_first()[i - 1]);
            }
        }
    }
}

/// With the camera locked, no sequence of drag, wheel, button, key or
/// close events — any sequence without a resize — produces a single
/// camera operation, so the camera's view matrix never changes.
pub proof fn lemma_run_locked_camera_untouched(s: SupportView, evs: Seq<Event>)
    requires
        s.camera_lock,
        forall|i: int| 0 <= i < evs.len() ==> !((#[trigger] evs[i]) is Resized),
    ensures
        spec_run(s, evs).1.len() == evs.len(),
        forall|i: int|
            0 <= i < evs.len() ==> (#[trigger] spec_run(s, evs).1[i]).camera_op is None,
    decreases evs.len(),
{
    if evs.len() > 0 {
        let (s1, o) = spec_handle(s, evs[0]);
        lemma_handle_locked(s, evs[0]);
        assert forall|i: int| 0 <= i < evs.drop_first().len() implies !((#[trigger] evs.drop_first()[i]) is Resized) by {
            assert(evs.drop_first()[i] == evs[i + 1]);
        }
        lemma_run_locked_camera_untouched(s1, evs.drop_first());
        assert forall|i: int| 0 <= i < evs.len() implies (#[trigger] spec_run(s, evs).1[i]).camera_op
            is None by {
            if i > 0 {
                assert(spec_run(s, evs).1[i] == spec_run(s1, evs.drop_first()).1[i - 1]);
            }
        }
    }
}

} // verus!
