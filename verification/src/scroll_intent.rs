//! The scroll intent of a virtualized list: whether the user follows the
//! tail, and the scroll request prepared before the list's rows change and
//! applied after the platform has laid them out.
//!
//! Offsets are values of any copyable type `F`; the comparisons of
//! offsets that drive the intent are made by the caller and arrive here as
//! booleans.
use vstd::prelude::*;

verus! {

/// A scroll request issued together with a list's content.
#[derive(PartialEq, Debug, Clone, Copy)]
pub enum TemplatedScrollRequest<F> {
    /// Scroll to the end whatever the user did.
    ForceTail { generation: u64 },
    /// Scroll to the end if the user follows the tail.
    FollowTail { generation: u64 },
    /// Keep row `index` at `viewport_offset` from the top of the viewport.
    PreserveAnchor { generation: u64, index: usize, viewport_offset: F },
    /// Return to a saved offset and following state.
    RestoreOffset { generation: u64, vertical_offset: F, following_tail: bool },
}

/// A request made ready before the rows change.
#[derive(PartialEq, Debug)]
pub enum PreparedTemplatedScroll<F> {
    Tail,
    PreserveAnchor { index: usize, viewport_offset: F, offset_before: F },
    RestoreOffset { vertical_offset: F, following_tail: bool },
}

impl<F: Copy> Clone for PreparedTemplatedScroll<F> {
    fn clone(&self) -> (r: Self)
        ensures
            r == *self,
    {
        match self {
            PreparedTemplatedScroll::Tail => PreparedTemplatedScroll::Tail,
            PreparedTemplatedScroll::PreserveAnchor { index, viewport_offset, offset_before } =>
                PreparedTemplatedScroll::PreserveAnchor {
                index: *index,
                viewport_offset: *viewport_offset,
                offset_before: *offset_before,
            },
            PreparedTemplatedScroll::RestoreOffset { vertical_offset, following_tail } =>
                PreparedTemplatedScroll::RestoreOffset {
                vertical_offset: *vertical_offset,
                following_tail: *following_tail,
            },
        }
    }
}

impl<F: Copy> Copy for PreparedTemplatedScroll<F> {

}

/// Whether the user follows the tail, and the request waiting to be
/// applied. Following is the user's intent, not the current distance from
/// the end: content growth can move the end away before layout catches up.
pub struct TailIntent<F> {
    pub following_tail: bool,
    pub pending: Option<PreparedTemplatedScroll<F>>,
}

pub open spec fn prepared_for<F>(following: bool, request: TemplatedScrollRequest<F>, offset_before: F) -> Option<PreparedTemplatedScroll<F>> {
    match request {
        TemplatedScrollRequest::ForceTail { .. } => Some(PreparedTemplatedScroll::Tail),
        TemplatedScrollRequest::FollowTail { .. } => if following {
            Some(PreparedTemplatedScroll::Tail)
        } else {
            None
        },
        TemplatedScrollRequest::PreserveAnchor { index, viewport_offset, .. } => Some(
            PreparedTemplatedScroll::PreserveAnchor { index, viewport_offset, offset_before },
        ),
        TemplatedScrollRequest::RestoreOffset { vertical_offset, following_tail, .. } => Some(
            PreparedTemplatedScroll::RestoreOffset { vertical_offset, following_tail },
        ),
    }
}

/// The intent after the viewport moved: `moved_up` says the offset moved
/// up, `near_tail` that the end is within the tail threshold. Moving up
/// out of the threshold detaches the user and drops a tail request; being
/// within it attaches the user and acknowledges a tail request; growth of
/// the content with an unchanged offset changes nothing.
pub open spec fn observed<F>(s: TailIntent<F>, moved_up: bool, near_tail: bool) -> TailIntent<F> {
    if moved_up && !near_tail {
        TailIntent {
            following_tail: false,
            pending: if s.pending matches Some(PreparedTemplatedScroll::Tail) {
                None
            } else {
                s.pending
            },
        }
    } else if near_tail {
        TailIntent {
            following_tail: true,
            pending: if s.pending matches Some(PreparedTemplatedScroll::Tail) {
                None
            } else {
                s.pending
            },
        }
    } else {
        s
    }
}

/// The intent once the pending request reached its target: a tail
/// request attaches the user, a restore sets the saved following state.
pub open spec fn acknowledged<F>(s: TailIntent<F>) -> TailIntent<F> {
    match s.pending {
        None => s,
        Some(PreparedTemplatedScroll::Tail) => TailIntent { following_tail: true, pending: None },
        Some(PreparedTemplatedScroll::RestoreOffset { following_tail, .. }) => TailIntent {
            following_tail,
            pending: None,
        },
        Some(PreparedTemplatedScroll::PreserveAnchor { .. }) => TailIntent {
            following_tail: s.following_tail,
            pending: None,
        },
    }
}

impl<F: Copy> TailIntent<F> {
    /// A new list follows its tail and has nothing pending.
    pub fn new() -> (s: Self)
        ensures
            s.following_tail,
            s.pending is None,
    {
        TailIntent { following_tail: true, pending: None }
    }

    /// Makes a request ready before the rows change; `offset_before` is
    /// the current offset, which an anchor request keeps.
    pub fn prepare(&mut self, request: TemplatedScrollRequest<F>, offset_before: F)
        ensures
            final(self).following_tail == old(self).following_tail,
            final(self).pending == prepared_for(old(self).following_tail, request, offset_before),
    {
        self.pending = match request {
            TemplatedScrollRequest::ForceTail { .. } => Some(PreparedTemplatedScroll::Tail),
            TemplatedScrollRequest::FollowTail { .. } => if self.following_tail {
                Some(PreparedTemplatedScroll::Tail)
            } else {
                None
            },
            TemplatedScrollRequest::PreserveAnchor { index, viewport_offset, .. } => Some(
                PreparedTemplatedScroll::PreserveAnchor { index, viewport_offset, offset_before },
            ),
            TemplatedScrollRequest::RestoreOffset { vertical_offset, following_tail, .. } => Some(
                PreparedTemplatedScroll::RestoreOffset { vertical_offset, following_tail },
            ),
        };
    }

    /// Updates the intent after the viewport changed.
    pub fn observe_view(&mut self, moved_up: bool, near_tail: bool)
        ensures
            *final(self) == observed(*old(self), moved_up, near_tail),
    {
        let drop_tail = match self.pending {
            Some(PreparedTemplatedScroll::Tail) => true,
            _ => false,
        };
        if moved_up && !near_tail {
            self.following_tail = false;
            if drop_tail {
                self.pending = None;
            }
        } else if near_tail {
            self.following_tail = true;
            if drop_tail {
                self.pending = None;
            }
        }
    }

    /// The pending request reached its target.
    pub fn acknowledge(&mut self)
        ensures
            *final(self) == acknowledged(*old(self)),
    {
        match self.pending {
            None => {},
            Some(PreparedTemplatedScroll::Tail) => {
                self.following_tail = true;
                self.pending = None;
            },
            Some(PreparedTemplatedScroll::RestoreOffset { following_tail, .. }) => {
                self.following_tail = following_tail;
                self.pending = None;
            },
            Some(PreparedTemplatedScroll::PreserveAnchor { .. }) => {
                self.pending = None;
            },
        }
    }

    /// After asking the platform to scroll to the target of `request`:
    /// whether the request is done. A refused change keeps it pending; a
    /// tail request stays pending until a view change confirms the final
    /// offset, because a later layout pass can still move the end. A done
    /// request is acknowledged only if it is `still_current`, that is, no
    /// other request replaced it meanwhile.
    pub fn after_change_view(&mut self, request_is_tail: bool, changed: bool, still_current: bool) -> (done: bool)
        ensures
            done == (changed && !request_is_tail),
            *final(self) == if done && still_current {
                acknowledged(*old(self))
            } else {
                *old(self)
            },
    {
        if !changed || request_is_tail {
            false
        } else {
            if still_current {
                self.acknowledge();
            }
            true
        }
    }

    /// Applies the pending request (see `applied`); returns whether it is
    /// settled.
    pub fn apply_pending(&mut self, at_target: bool, changed: bool) -> (done: bool)
        ensures
            (done, *final(self)) == applied(*old(self), at_target, changed),
    {
        match self.pending {
            None => true,
            Some(r) => {
                let is_tail = match r {
                    PreparedTemplatedScroll::Tail => true,
                    _ => false,
                };
                if at_target {
                    self.acknowledge();
                    true
                } else if !changed || is_tail {
                    false
                } else {
                    self.acknowledge();
                    true
                }
            },
        }
    }
}


/// Applying the pending request once its target is known: `at_target`
/// says the viewport already stands there (a tail request before the first
/// layout never does), `changed` whether the platform accepted the scroll
/// it was then asked for. No request, or one that is done, counts as
/// settled; a tail request stays pending until a view change confirms it.
pub open spec fn applied<F>(s: TailIntent<F>, at_target: bool, changed: bool) -> (bool, TailIntent<F>) {
    match s.pending {
        None => (true, s),
        Some(r) => if at_target {
            (true, acknowledged(s))
        } else if !changed || r is Tail {
            (false, s)
        } else {
            (true, acknowledged(s))
        },
    }
}

/// Content growth alone (the offset did not move up) never detaches a
/// user who follows the tail, and keeps a pending tail request unless the
/// end is already in reach.
pub proof fn law_growth_keeps_tail_intent<F>(s: TailIntent<F>, near_tail: bool)
    requires
        s.following_tail,
    ensures
        observed(s, false, near_tail).following_tail,
        !near_tail ==> observed(s, false, near_tail) == s,
{
}

/// Scrolling up out of the tail threshold detaches the user and cancels a
/// pending tail request; a later follow request then prepares nothing.
pub proof fn law_upward_scroll_detaches<F>(s: TailIntent<F>, generation: u64, offset: F)
    ensures
        !observed(s, true, false).following_tail,
        !(observed(s, true, false).pending matches Some(PreparedTemplatedScroll::Tail)),
        prepared_for(
            observed(s, true, false).following_tail,
            TemplatedScrollRequest::FollowTail { generation },
            offset,
        ) is None,
{
}

/// Returning within the tail threshold re-attaches the user and
/// acknowledges a pending tail request.
pub proof fn law_return_to_tail_reattaches<F>(s: TailIntent<F>, moved_up: bool)
    ensures
        observed(s, moved_up, true).following_tail,
        !(observed(s, moved_up, true).pending matches Some(PreparedTemplatedScroll::Tail)),
{
}

/// Applying the pending request reports it settled exactly when nothing is
/// pending afterwards; when it is not settled, the request stays armed and
/// the intent is unchanged, so that a later layout pass can retry.
pub proof fn law_apply_settles_or_keeps<F>(s: TailIntent<F>, at_target: bool, changed: bool)
    ensures
        applied(s, at_target, changed).0 == (applied(s, at_target, changed).1.pending is None),
        !applied(s, at_target, changed).0 ==> applied(s, at_target, changed).1 == s,
{
}

/// Acknowledging a request clears it, whatever it was. A tail request
/// leaves the user following the tail; a restore request sets the saved
/// following state whatever it was before; an anchor request leaves the
/// intent as it was.
pub proof fn law_acknowledge_settles_the_request<F>(s: TailIntent<F>)
    ensures
        acknowledged(s).pending is None,
        s.pending matches Some(PreparedTemplatedScroll::Tail) ==> acknowledged(s).following_tail,
        s.pending matches Some(PreparedTemplatedScroll::RestoreOffset { following_tail, .. })
            ==> acknowledged(s).following_tail == following_tail,
        s.pending matches Some(PreparedTemplatedScroll::PreserveAnchor { .. }) ==> acknowledged(
            s,
        ).following_tail == s.following_tail,
        s.pending is None ==> acknowledged(s) == s,
{
}

/// After a restore request is acknowledged, the following state does not
/// depend on the state before: two intents differing only in it end the
/// same.
pub proof fn law_restore_ignores_previous_following<F>(s: TailIntent<F>, other: bool)
    requires
        s.pending matches Some(PreparedTemplatedScroll::RestoreOffset { .. }),
    ensures
        acknowledged(s) == acknowledged(TailIntent { following_tail: other, ..s }),
{
}

/// A forced tail request is prepared whatever the user's intent.
pub proof fn law_force_tail_always_prepares<F>(following: bool, generation: u64, offset: F)
    ensures
        prepared_for(following, TemplatedScrollRequest::ForceTail { generation }, offset) == Some(
            PreparedTemplatedScroll::<F>::Tail,
        ),
{
}


/// Whether the viewport is near the top of a list, to report reaching
/// the top once per arrival.
pub struct TopEdge {
    pub near_top: bool,
}

impl TopEdge {
    pub fn new() -> (e: Self)
        ensures
            !e.near_top,
    {
        TopEdge { near_top: false }
    }

    /// The viewport changed; `near_top` says the offset is within the top
    /// threshold. Reports whether the top was just reached.
    pub fn observe(&mut self, near_top: bool) -> (reached: bool)
        ensures
            reached == (near_top && !old(self).near_top),
            final(self).near_top == near_top,
    {
        let reached = near_top && !self.near_top;
        self.near_top = near_top;
        reached
    }
}

/// The scroll viewer of a virtualized list and the revokers of the
/// handlers attached to it (view changes, layout passes). Handles are
/// `u64`.
pub struct ViewerSlot {
    pub viewer: Option<u64>,
    pub revokers: Option<(u64, u64)>,
}

/// Making sure a list's scroll viewer is wired: a viewer already found
/// keeps its handlers; otherwise the viewer `found` in the visual tree
/// is wired when both its view-change and its layout handler could be
/// attached (`view_changed`, `layout_updated` are their revokers), and
/// any failure leaves no viewer. The result says whether a viewer is
/// wired.
pub open spec fn ensured(s: ViewerSlot, found: Option<u64>, view_changed: Option<u64>, layout_updated: Option<u64>) -> (bool, ViewerSlot) {
    if s.viewer is Some {
        (true, s)
    } else if found is None {
        (false, s)
    } else if view_changed is None || layout_updated is None {
        (false, ViewerSlot { viewer: None, ..s })
    } else {
        (
            true,
            ViewerSlot {
                viewer: found,
                revokers: Some((view_changed.unwrap(), layout_updated.unwrap())),
            },
        )
    }
}

impl ViewerSlot {
    pub fn new() -> (s: Self)
        ensures
            s.viewer is None,
            s.revokers is None,
    {
        ViewerSlot { viewer: None, revokers: None }
    }

    pub fn ensure_viewer(&mut self, found: Option<u64>, view_changed: Option<u64>, layout_updated: Option<u64>) -> (wired: bool)
        ensures
            (wired, *final(self)) == ensured(*old(self), found, view_changed, layout_updated),
    {
        if self.viewer.is_some() {
            return true;
        }
        match found {
            None => false,
            Some(v) => match (view_changed, layout_updated) {
                (Some(a), Some(b)) => {
                    self.viewer = Some(v);
                    self.revokers = Some((a, b));
                    true
                },
                _ => {
                    self.viewer = None;
                    false
                },
            },
        }
    }
}

} // verus!
