//! The visibility state machine of the scroll-to-top widget.
//!
//! A mounted widget holds one live registration ("subscription") on the host
//! window's scroll signal. Each scroll signal carries the subscription it was
//! delivered on and the vertical offset read at that moment; a delivery on a
//! live subscription recomputes the visibility flag, a delivery on a disposed
//! one changes nothing. Reconfiguring the threshold disposes the current
//! subscription and installs a fresh one, so a stale closure can never act
//! after its disposal.

use vstd::prelude::*;

verus! {

/// Scroll offset above which the widget is shown when the caller gives none.
pub const DEFAULT_THRESHOLD: u64 = 500;

/// Mathematical model of a controller: the configured threshold, the current
/// visibility flag, and one entry per subscription ever created, `true` while
/// that subscription is live.
#[verifier::ext_equal]
pub struct ControllerModel {
    /// Vertical scroll offset above which the widget is shown.
    pub threshold: u64,
    /// Whether the widget is currently shown.
    pub visible: bool,
    /// Liveness of every subscription this controller has created, in order
    /// of creation; a subscription's index identifies it.
    pub subs: Seq<bool>,
}

/// Subscription `sub` is a live registration on the scroll signal.
pub open spec fn sub_live(s: ControllerModel, sub: int) -> bool {
    0 <= sub < s.subs.len() && s.subs[sub]
}

/// A controller is well formed when it has created at least one subscription
/// and only the newest one may still be live.
pub open spec fn wf(s: ControllerModel) -> bool {
    &&& s.subs.len() >= 1
    &&& forall|i: int| sub_live(s, i) ==> i == s.subs.len() - 1
}

/// The controller is mounted while its newest subscription is live.
pub open spec fn mounted(s: ControllerModel) -> bool {
    sub_live(s, s.subs.len() - 1)
}

/// The visibility rule: shown exactly when the offset is strictly above the
/// threshold; an offset equal to the threshold keeps the widget hidden.
pub open spec fn shows(threshold: u64, offset: u64) -> bool {
    offset > threshold
}

/// An offset reading that was unavailable degrades to offset 0.
pub open spec fn effective_offset(reading: Option<u64>) -> u64 {
    match reading {
        Some(offset) => offset,
        None => 0,
    }
}

/// The state right after mounting with `threshold`: hidden, with a single
/// live subscription.
pub open spec fn mount_state(threshold: u64) -> ControllerModel {
    ControllerModel { threshold, visible: false, subs: seq![true] }
}

/// One scroll signal delivered on subscription `sub` with `offset`: a live
/// subscription recomputes visibility, a disposed one changes nothing.
pub open spec fn scroll_step(s: ControllerModel, sub: int, offset: u64) -> ControllerModel {
    if sub_live(s, sub) {
        ControllerModel { visible: shows(s.threshold, offset), ..s }
    } else {
        s
    }
}

/// Reconfiguration: dispose the newest subscription and install a fresh one
/// that captures `threshold`; visibility is untouched until the next signal.
pub open spec fn reconfigure_step(s: ControllerModel, threshold: u64) -> ControllerModel {
    ControllerModel {
        threshold,
        subs: s.subs.update(s.subs.len() - 1, false).push(true),
        ..s
    }
}

/// Unmount: dispose the newest subscription; nothing else changes.
pub open spec fn unmount_step(s: ControllerModel) -> ControllerModel {
    ControllerModel { subs: s.subs.update(s.subs.len() - 1, false), ..s }
}

/// A fire-and-forget request that the host viewport scroll to the given
/// coordinates.
pub struct ScrollRequest {
    /// Requested horizontal offset.
    pub x: u64,
    /// Requested vertical offset.
    pub y: u64,
}

/// The click action: one request that the viewport scroll to the origin,
/// whatever the current state. No state is touched; visibility flips on its
/// own once the next scroll signal reports an offset at or below the
/// threshold.
pub fn activate() -> (req: ScrollRequest)
    ensures
        req.x == 0,
        req.y == 0,
{
    ScrollRequest { x: 0, y: 0 }
}

/// The visibility controller: the single owner of the widget's visibility
/// flag, driven by scroll signals and by lifecycle events.
pub struct VisibilityController {
    threshold: u64,
    visible: bool,
    subs: Vec<bool>,
}

impl View for VisibilityController {
    type V = ControllerModel;

    closed spec fn view(&self) -> ControllerModel {
        ControllerModel { threshold: self.threshold, visible: self.visible, subs: self.subs@ }
    }
}

impl VisibilityController {
    /// Mount with the given threshold: the widget starts hidden, with exactly
    /// one live subscription on the scroll signal.
    pub fn mount(threshold: u64) -> (c: Self)
        ensures
            c@ == mount_state(threshold),
            wf(c@),
            mounted(c@),
    {
        let mut subs: Vec<bool> = Vec::new();
        subs.push(true);
        let c = VisibilityController { threshold, visible: false, subs };
        proof {
            assert(c@.subs =~= mount_state(threshold).subs);
            assert(c@ =~= mount_state(threshold));
        }
        c
    }

    /// Deliver one scroll signal: on a live subscription the visibility flag
    /// becomes `offset > threshold`, on a disposed one the state is unchanged.
    pub fn deliver_scroll(&mut self, sub: usize, offset: u64)
        ensures
            final(self)@ == scroll_step(old(self)@, sub as int, offset),
            sub_live(old(self)@, sub as int) ==> final(self)@.visible == shows(
                old(self)@.threshold,
                offset,
            ),
            !sub_live(old(self)@, sub as int) ==> final(self)@ == old(self)@,
    {
        if sub < self.subs.len() && self.subs[sub] {
            self.visible = offset > self.threshold;
        }
    }

    /// Deliver one scroll signal whose offset reading may have failed: an
    /// unavailable reading counts as offset 0 and never as an error.
    pub fn deliver_scroll_signal(&mut self, sub: usize, reading: Option<u64>)
        ensures
            final(self)@ == scroll_step(old(self)@, sub as int, effective_offset(reading)),
    {
        let offset: u64 = match reading {
            Some(offset) => offset,
            None => 0,
        };
        self.deliver_scroll(sub, offset);
    }

    /// Change the threshold while mounted: the current subscription is
    /// disposed and a fresh one capturing the new threshold is installed, so
    /// exactly one subscription is live afterwards.
    pub fn set_threshold(&mut self, threshold: u64)
        requires
            wf(old(self)@),
            mounted(old(self)@),
        ensures
            final(self)@ == reconfigure_step(old(self)@, threshold),
            wf(final(self)@),
            mounted(final(self)@),
    {
        let ghost before = self@;
        self.subs.pop();
        self.subs.push(false);
        self.subs.push(true);
        self.threshold = threshold;
        proof {
            assert(self@.subs =~= reconfigure_step(before, threshold).subs);
            assert(self@ =~= reconfigure_step(before, threshold));
            crate::laws::lemma_reconfigure_single_live_subscription(before, threshold);
        }
    }

    /// Unmount: dispose the subscription. No subscription stays live, so no
    /// later scroll signal can mutate the state.
    pub fn unmount(&mut self)
        requires
            wf(old(self)@),
        ensures
            final(self)@ == unmount_step(old(self)@),
            wf(final(self)@),
            !mounted(final(self)@),
            forall|i: int| !sub_live(final(self)@, i),
            final(self)@.visible == old(self)@.visible,
            final(self)@.threshold == old(self)@.threshold,
    {
        let ghost before = self@;
        self.subs.pop();
        self.subs.push(false);
        proof {
            assert(self@.subs =~= unmount_step(before).subs);
            assert(self@ =~= unmount_step(before));
            crate::laws::lemma_unmount_disposes_all(before);
        }
    }

    /// The widget is rendered exactly when this is true.
    pub fn is_visible(&self) -> (visible: bool)
        ensures
            visible == self@.visible,
    {
        self.visible
    }

    /// The threshold currently governing visibility.
    pub fn threshold(&self) -> (threshold: u64)
        ensures
            threshold == self@.threshold,
    {
        self.threshold
    }

    /// Whether a subscription is currently live.
    pub fn is_mounted(&self) -> (m: bool)
        requires
            wf(self@),
        ensures
            m == mounted(self@),
    {
        let last: usize = self.subs.len() - 1;
        self.subs[last]
    }

    /// The identity of the live subscription, if any: the host binding tags
    /// its scroll listener with it, so that signals from a stale listener are
    /// recognised and ignored.
    pub fn current_subscription(&self) -> (sub: Option<usize>)
        requires
            wf(self@),
        ensures
            mounted(self@) ==> sub == Some((self@.subs.len() - 1) as usize),
            !mounted(self@) ==> sub.is_none(),
            match sub {
                Some(s) => sub_live(self@, s as int),
                None => !mounted(self@),
            },
    {
        let last: usize = self.subs.len() - 1;
        if self.subs[last] {
            Some(last)
        } else {
            None
        }
    }
}

} // verus!
