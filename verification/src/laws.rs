//! Laws of the visibility state machine, stated over the controller model
//! and proved once and for all.

use vstd::prelude::*;

use crate::controller::ControllerModel;
use crate::controller::mounted;
use crate::controller::reconfigure_step;
use crate::controller::scroll_step;
use crate::controller::sub_live;
use crate::controller::unmount_step;
use crate::controller::wf;

verus! {

/// Visibility law: a scroll delivery on a live subscription leaves the widget
/// visible exactly when the offset is strictly above the threshold, and
/// hidden exactly when the offset is at or below it.
pub proof fn lemma_visibility_iff_above_threshold(s: ControllerModel, sub: int, offset: u64)
    requires
        sub_live(s, sub),
    ensures
        scroll_step(s, sub, offset).visible <==> offset > s.threshold,
        scroll_step(s, sub, offset).visible <==> !(offset <= s.threshold),
{
}

/// Idempotence: delivering the same offset twice in a row on the same
/// subscription leaves the state unchanged after the second delivery.
pub proof fn lemma_scroll_idempotent(s: ControllerModel, sub: int, offset: u64)
    ensures
        scroll_step(scroll_step(s, sub, offset), sub, offset) == scroll_step(s, sub, offset),
{
    let once = scroll_step(s, sub, offset);
    assert(once.subs == s.subs);
    assert(scroll_step(once, sub, offset) =~= once);
}

/// A scroll delivery on a disposed subscription mutates nothing, whatever the
/// offset: stale listeners are inert.
pub proof fn lemma_stale_scroll_is_noop(s: ControllerModel, sub: int, offset: u64)
    requires
        !sub_live(s, sub),
    ensures
        scroll_step(s, sub, offset) == s,
{
}

/// Unmounting disposes the only live subscription: afterwards no subscription
/// at all is live, and well-formedness is kept.
pub proof fn lemma_unmount_disposes_all(s: ControllerModel)
    requires
        wf(s),
    ensures
        wf(unmount_step(s)),
        !mounted(unmount_step(s)),
        forall|i: int| !sub_live(unmount_step(s), i),
{
    let down = unmount_step(s);
    let n = s.subs.len() as int;
    assert forall|i: int| !sub_live(down, i) by {
        if 0 <= i < n {
            assert(down.subs[i] == s.subs.update(n - 1, false)[i]);
            if i != n - 1 && s.subs[i] {
                assert(sub_live(s, i));
                assert(false);
            }
        }
    }
}

/// Lifecycle law: after unmounting, no scroll delivery whatsoever — on any
/// subscription, with any offset — can mutate the state.
pub proof fn lemma_disposed_scroll_is_noop(s: ControllerModel, sub: int, offset: u64)
    requires
        wf(s),
    ensures
        scroll_step(unmount_step(s), sub, offset) == unmount_step(s),
{
    lemma_unmount_disposes_all(s);
    lemma_stale_scroll_is_noop(unmount_step(s), sub, offset);
}

/// Reconfiguration law, liveness half: changing the threshold leaves exactly
/// one live subscription, the freshly installed one.
pub proof fn lemma_reconfigure_single_live_subscription(s: ControllerModel, threshold: u64)
    requires
        wf(s),
    ensures
        wf(reconfigure_step(s, threshold)),
        mounted(reconfigure_step(s, threshold)),
        reconfigure_step(s, threshold).subs.len() == s.subs.len() + 1,
        forall|i: int|
            sub_live(reconfigure_step(s, threshold), i) <==> i == s.subs.len() as int,
{
    let fresh = reconfigure_step(s, threshold);
    let n = s.subs.len() as int;
    let disposed = s.subs.update(n - 1, false);
    assert(fresh.subs == disposed.push(true));
    assert forall|i: int| sub_live(fresh, i) <==> i == n by {
        if 0 <= i < n {
            assert(fresh.subs[i] == disposed[i]);
            if i != n - 1 && s.subs[i] {
                assert(sub_live(s, i));
                assert(false);
            }
        }
        if i == n {
            assert(fresh.subs[i]);
        }
    }
    assert(sub_live(fresh, fresh.subs.len() - 1));
}

/// Reconfiguration law, governance half: after the change only the newest
/// threshold governs visibility — a delivery on the fresh subscription shows
/// the widget exactly when the offset is above the new threshold, and a
/// delivery on the disposed subscription changes nothing.
pub proof fn lemma_reconfigure_governed_by_new_threshold(
    s: ControllerModel,
    threshold: u64,
    offset: u64,
)
    requires
        wf(s),
    ensures
        scroll_step(reconfigure_step(s, threshold), s.subs.len() as int, offset).visible
            <==> offset > threshold,
        scroll_step(reconfigure_step(s, threshold), s.subs.len() - 1, offset)
            == reconfigure_step(s, threshold),
{
    let fresh = reconfigure_step(s, threshold);
    lemma_reconfigure_single_live_subscription(s, threshold);
    lemma_visibility_iff_above_threshold(fresh, s.subs.len() as int, offset);
    lemma_stale_scroll_is_noop(fresh, s.subs.len() - 1, offset);
}

} // verus!
