//! Lifecycle of content dialogs.
//!
//! A dialog is shown asynchronously and closes with an animation. The
//! platform refuses to show a dialog whose close animation is running: the
//! dialog would hang with its overlay up and never report `Closed`. So a
//! close request on a shown dialog enters a *closing* phase that lasts until
//! `Closed` arrives, and open requests in that phase are ignored.
//!
//! Closing the dialog from inside a click handler leaves visual residue,
//! so a programmatic close is deferred: it schedules a hide under a fresh
//! token whose flag stays raised until the hide runs or a later open
//! request lowers it. Before the close animation the content is cleared
//! and the dialog shrunk; the next open restores the recorded size and
//! content first.
//!
//! Sizes are kept as values of any copyable type `S`.
use crate::tables::{table_get, table_insert, table_new, table_remove};
use crate::widget::ControlId;
use rustc_hash::FxHashMap;
use vstd::prelude::*;

verus! {

/// What is known of one dialog.
#[derive(PartialEq, Debug)]
pub struct DialogState<S> {
    /// The mounted content subtree, restored before reopening.
    pub content_id: Option<ControlId>,
    /// The last width and height the renderer set.
    pub width: Option<S>,
    pub height: Option<S>,
    /// Whether the handler that clears the dialog before its close
    /// animation is attached.
    pub closing_attached: bool,
    /// The dialog was asked to show and has not closed since.
    pub shown: bool,
    /// The close animation runs: closing was requested, `Closed` has not
    /// arrived.
    pub closing: bool,
}

impl<S: Copy> Clone for DialogState<S> {
    fn clone(&self) -> (r: Self)
        ensures
            r == *self,
    {
        *self
    }
}

impl<S: Copy> Copy for DialogState<S> {

}

pub open spec fn fresh_dialog<S>() -> DialogState<S> {
    DialogState {
        content_id: None,
        width: None,
        height: None,
        closing_attached: false,
        shown: false,
        closing: false,
    }
}

impl<S: Copy> DialogState<S> {
    pub fn fresh() -> (d: Self)
        ensures
            d == fresh_dialog::<S>(),
    {
        DialogState {
            content_id: None,
            width: None,
            height: None,
            closing_attached: false,
            shown: false,
            closing: false,
        }
    }
}

/// The abstract state of all dialogs: their states, the hide token each
/// has in the pending table, the tokens whose flag is raised, and the next
/// token.
pub struct DialogBookView<S> {
    pub states: Map<u32, DialogState<S>>,
    pub pending: Map<u32, u64>,
    pub live: Set<u64>,
    pub next: u64,
}

/// What to do for an open request.
#[derive(PartialEq, Debug)]
pub enum OpenStep<S> {
    /// The close animation runs: do not show.
    Ignored,
    /// Restore what the last close cleared, attach the clearing handler
    /// if it is missing, then show.
    Show { restore_size: Option<(S, S)>, restore_content: Option<ControlId>, attach_closing: bool },
}

pub open spec fn state_or_fresh<S>(v: DialogBookView<S>, id: u32) -> DialogState<S> {
    if v.states.contains_key(id) {
        v.states[id]
    } else {
        fresh_dialog()
    }
}

pub open spec fn is_closing<S>(v: DialogBookView<S>, id: u32) -> bool {
    v.states.contains_key(id) && v.states[id].closing
}

pub open spec fn open_step<S>(v: DialogBookView<S>, id: u32) -> OpenStep<S> {
    if is_closing(v, id) {
        OpenStep::Ignored
    } else {
        let st = state_or_fresh(v, id);
        OpenStep::Show {
            restore_size: match (st.width, st.height) {
                (Some(w), Some(h)) => Some((w, h)),
                _ => None,
            },
            restore_content: st.content_id,
            attach_closing: !st.closing_attached,
        }
    }
}

/// After an open request: the pending entry is dropped; unless the
/// request was ignored, its token's flag is lowered.
pub open spec fn after_open<S>(v: DialogBookView<S>, id: u32) -> DialogBookView<S> {
    DialogBookView {
        pending: v.pending.remove(id),
        live: if !is_closing(v, id) && v.pending.contains_key(id) {
            v.live.remove(v.pending[id])
        } else {
            v.live
        },
        ..v
    }
}

pub open spec fn after_attach<S>(v: DialogBookView<S>, id: u32) -> DialogBookView<S> {
    DialogBookView {
        states: v.states.insert(id, DialogState { closing_attached: true, ..state_or_fresh(v, id) }),
        ..v
    }
}

pub open spec fn after_show<S>(v: DialogBookView<S>, id: u32) -> DialogBookView<S> {
    if v.states.contains_key(id) {
        DialogBookView { states: v.states.insert(id, DialogState { shown: true, ..v.states[id] }), ..v }
    } else {
        v
    }
}

/// After a close request: a shown dialog enters its close animation, and
/// a hide is scheduled under the token `v.next`.
pub open spec fn after_close<S>(v: DialogBookView<S>, id: u32) -> DialogBookView<S> {
    DialogBookView {
        states: if v.states.contains_key(id) && v.states[id].shown {
            v.states.insert(id, DialogState { shown: false, closing: true, ..v.states[id] })
        } else {
            v.states
        },
        pending: v.pending.insert(id, v.next),
        live: v.live.insert(v.next),
        next: (v.next + 1) as u64,
    }
}

pub open spec fn after_hide_due<S>(v: DialogBookView<S>, token: u64) -> DialogBookView<S> {
    DialogBookView { live: v.live.remove(token), ..v }
}

pub open spec fn after_closed<S>(v: DialogBookView<S>, id: u32) -> DialogBookView<S> {
    if v.states.contains_key(id) {
        DialogBookView {
            states: v.states.insert(id, DialogState { shown: false, closing: false, ..v.states[id] }),
            ..v
        }
    } else {
        v
    }
}

pub open spec fn after_destroy<S>(v: DialogBookView<S>, id: u32) -> DialogBookView<S> {
    DialogBookView { states: v.states.remove(id), pending: v.pending.remove(id), ..v }
}

pub open spec fn after_content<S>(v: DialogBookView<S>, id: u32, content: Option<ControlId>) -> DialogBookView<S> {
    DialogBookView {
        states: v.states.insert(id, DialogState { content_id: content, ..state_or_fresh(v, id) }),
        ..v
    }
}

pub open spec fn after_width<S>(v: DialogBookView<S>, id: u32, w: S) -> DialogBookView<S> {
    DialogBookView {
        states: v.states.insert(id, DialogState { width: Some(w), ..state_or_fresh(v, id) }),
        ..v
    }
}

pub open spec fn after_height<S>(v: DialogBookView<S>, id: u32, h: S) -> DialogBookView<S> {
    DialogBookView {
        states: v.states.insert(id, DialogState { height: Some(h), ..state_or_fresh(v, id) }),
        ..v
    }
}

/// The books of all dialogs are well formed: every hide token handed out
/// is below the next one, and no two dialogs wait for the same hide.
pub open spec fn book_wf<S>(v: DialogBookView<S>) -> bool {
    &&& forall|id: u32| #[trigger] v.pending.contains_key(id) ==> v.pending[id] < v.next
    &&& forall|t: u64| #[trigger] v.live.contains(t) ==> t < v.next
    &&& forall|a: u32, b: u32|
        #[trigger] v.pending.contains_key(a) && #[trigger] v.pending.contains_key(b) && a != b
            ==> v.pending[a] != v.pending[b]
}

/// The dialogs of one backend. Its tables are private, so that it stays
/// well formed (`book_wf`).
pub struct DialogBook<S> {
    states: FxHashMap<u32, DialogState<S>>,
    pending: FxHashMap<u32, u64>,
    live: Vec<u64>,
    next: u64,
}

impl<S> DialogBook<S> {
    #[verifier::type_invariant]
    spec fn well_formed(self) -> bool {
        book_wf(self@)
    }
}

impl<S> View for DialogBook<S> {
    type V = DialogBookView<S>;

    closed spec fn view(&self) -> DialogBookView<S> {
        DialogBookView {
            states: self.states@,
            pending: self.pending@,
            live: Set::new(|t: u64| self.live@.contains(t)),
            next: self.next,
        }
    }
}

fn remove_token(live: &mut Vec<u64>, token: u64) -> (was_live: bool)
    ensures
        was_live == old(live)@.contains(token),
        forall|t: u64| #[trigger]
            final(live)@.contains(t) == (old(live)@.contains(t) && t != token),
{
    let ghost before = live@;
    let mut kept: Vec<u64> = Vec::new();
    let mut found = false;
    let n = live.len();
    for i in 0..n
        invariant
            n == live@.len(),
            live@ == before,
            found == before.take(i as int).contains(token),
            forall|t: u64| #[trigger]
                kept@.contains(t) == (before.take(i as int).contains(t) && t != token),
    {
        let t = live[i];
        let ghost prev = kept@;
        if t == token {
            found = true;
        } else {
            kept.push(t);
        }
        proof {
            let seen = before.take(i as int);
            let seen2 = before.take(i + 1);
            assert(seen2 =~= seen.push(t));
            assert forall|x: u64| #[trigger] seen2.contains(x) == (seen.contains(x) || x == t) by {
                if seen2.contains(x) {
                    let k = choose|k: int| 0 <= k < seen2.len() && seen2[k] == x;
                    if k < i {
                        assert(seen[k] == x);
                    }
                }
                if seen.contains(x) {
                    let k = choose|k: int| 0 <= k < seen.len() && seen[k] == x;
                    assert(seen2[k] == x);
                }
                if x == t {
                    assert(seen2[i as int] == x);
                }
            }
            assert forall|x: u64| #[trigger] kept@.contains(x) == (seen2.contains(x) && x != token) by {
                if t != token {
                    assert(kept@ =~= prev.push(t));
                    if prev.contains(x) {
                        let k = choose|k: int| 0 <= k < prev.len() && prev[k] == x;
                        assert(kept@[k] == x);
                    }
                    if kept@.contains(x) {
                        let k = choose|k: int| 0 <= k < kept@.len() && kept@[k] == x;
                        if k < prev.len() {
                            assert(prev[k] == x);
                        }
                    }
                    if x == t {
                        assert(kept@[prev.len() as int] == x);
                    }
                }
            }
        }
    }
    *live = kept;
    assert(before.take(n as int) =~= before);
    found
}

fn state_copy<S: Copy>(states: &FxHashMap<u32, DialogState<S>>, id: u32) -> (st: Option<DialogState<S>>)
    ensures
        st == (if states@.contains_key(id) {
            Some(states@[id])
        } else {
            None
        }),
{
    match table_get(states, id) {
        Some(st) => Some(*st),
        None => None,
    }
}

impl<S: Copy> DialogBook<S> {
    pub fn new() -> (b: Self)
        ensures
            book_wf(b@),
            b@.states == Map::<u32, DialogState<S>>::empty(),
            b@.pending == Map::<u32, u64>::empty(),
            b@.live == Set::<u64>::empty(),
            b@.next == 0,
    {
        let b = DialogBook { states: table_new(), pending: table_new(), live: Vec::new(), next: 0 };
        assert(b@.live =~= Set::<u64>::empty());
        b
    }

    /// The state of a dialog, if one is recorded.
    pub fn state(&self, id: u32) -> (st: Option<DialogState<S>>)
        ensures
            st == (if self@.states.contains_key(id) {
                Some(self@.states[id])
            } else {
                None
            }),
    {
        state_copy(&self.states, id)
    }

    /// Records the state of dialog `id`.
    fn put_state(&mut self, id: u32, st: DialogState<S>)
        ensures
            final(self)@ == (DialogBookView { states: old(self)@.states.insert(id, st), ..old(self)@ }),
    {
        proof {
            use_type_invariant(&*self);
        }
        let ghost v = self@;
        assert(book_wf(v));
        let mut states = table_new();
        assert(book_wf(DialogBookView { states: states@, ..v }));
        std::mem::swap(&mut states, &mut self.states);
        table_insert(&mut states, id, st);
        assert(book_wf(DialogBookView { states: states@, ..v }));
        self.states = states;
    }

    /// Drops the pending hide of dialog `id`, returning its token.
    fn take_pending(&mut self, id: u32) -> (token: Option<u64>)
        ensures
            token == (if old(self)@.pending.contains_key(id) {
                Some(old(self)@.pending[id])
            } else {
                None
            }),
            final(self)@ == (DialogBookView { pending: old(self)@.pending.remove(id), ..old(self)@ }),
    {
        proof {
            use_type_invariant(&*self);
        }
        let ghost v = self@;
        let mut pending = table_new();
        assert(book_wf(DialogBookView { pending: pending@, ..v }));
        std::mem::swap(&mut pending, &mut self.pending);
        let token = table_remove(&mut pending, id);
        assert(book_wf(DialogBookView { pending: pending@, ..v }));
        self.pending = pending;
        token
    }

    /// Lowers the flag of hide `token`; whether it was raised.
    fn lower(&mut self, token: u64) -> (was_live: bool)
        ensures
            was_live == old(self)@.live.contains(token),
            final(self)@ == (DialogBookView { live: old(self)@.live.remove(token), ..old(self)@ }),
    {
        proof {
            use_type_invariant(&*self);
        }
        let ghost v = self@;
        let mut live: Vec<u64> = Vec::new();
        assert(book_wf(DialogBookView { live: Set::new(|t: u64| live@.contains(t)), ..v }));
        std::mem::swap(&mut live, &mut self.live);
        let run = remove_token(&mut live, token);
        assert forall|t: u64| live@.contains(t) implies t < v.next by {
            assert(v.live.contains(t));
        }
        assert(book_wf(DialogBookView { live: Set::new(|t: u64| live@.contains(t)), ..v }));
        self.live = live;
        assert(self@.live =~= v.live.remove(token));
        assert(self@ =~= DialogBookView { live: v.live.remove(token), ..v });
        run
    }

    /// An open request (`is_open` turned true).
    pub fn open_request(&mut self, id: u32) -> (step: OpenStep<S>)
        ensures
            book_wf(final(self)@),
            step == open_step(old(self)@, id),
            final(self)@ == after_open(old(self)@, id),
    {
        proof {
            use_type_invariant(&*self);
        }
        let ghost v = self@;
        let st = state_copy(&self.states, id);
        let closing = match st {
            Some(s) => s.closing,
            None => false,
        };
        let pending = self.take_pending(id);
        if closing {
            assert(self@ =~= after_open(v, id));
            return OpenStep::Ignored;
        }
        match pending {
            Some(token) => {
                self.lower(token);
            },
            None => {},
        }
        let s = match st {
            Some(s) => s,
            None => DialogState::fresh(),
        };
        let restore_size = match (s.width, s.height) {
            (Some(w), Some(h)) => Some((w, h)),
            _ => None,
        };
        assert(self@ =~= after_open(v, id));
        OpenStep::Show { restore_size, restore_content: s.content_id, attach_closing: !s.closing_attached }
    }

    /// The handler that clears the dialog before its close animation has
    /// been attached.
    pub fn closing_attached(&mut self, id: u32)
        ensures
            book_wf(final(self)@),
            final(self)@ == after_attach(old(self)@, id),
    {
        proof {
            use_type_invariant(&*self);
        }
        let s = match state_copy(&self.states, id) {
            Some(s) => s,
            None => DialogState::fresh(),
        };
        self.put_state(id, DialogState { closing_attached: true, ..s });
    }

    /// The dialog was asked to show.
    pub fn shown(&mut self, id: u32)
        ensures
            book_wf(final(self)@),
            final(self)@ == after_show(old(self)@, id),
    {
        proof {
            use_type_invariant(&*self);
        }
        match state_copy(&self.states, id) {
            Some(s) => {
                self.put_state(id, DialogState { shown: true, ..s });
            },
            None => {},
        }
    }

    /// A close request (`is_open` turned false); returns the token of the
    /// hide it schedules, a token no other dialog waits for.
    pub fn close_request(&mut self, id: u32) -> (token: u64)
        requires
            old(self)@.next < u64::MAX,
        ensures
            book_wf(final(self)@),
            token == old(self)@.next,
            final(self)@ == after_close(old(self)@, id),
    {
        proof {
            use_type_invariant(&*self);
        }
        let ghost v = self@;
        match state_copy(&self.states, id) {
            Some(s) => {
                if s.shown {
                    self.put_state(id, DialogState { shown: false, closing: true, ..s });
                }
            },
            None => {},
        }
        let token = self.next;
        let ghost v1 = self@;
        assert(book_wf(DialogBookView { next: (token + 1) as u64, ..v1 }));
        self.next = self.next + 1;
        let ghost v2 = self@;
        let mut pending = table_new();
        assert(book_wf(DialogBookView { pending: pending@, ..v2 }));
        std::mem::swap(&mut pending, &mut self.pending);
        table_insert(&mut pending, id, token);
        assert(book_wf(DialogBookView { pending: pending@, ..v2 }));
        self.pending = pending;
        let ghost v3 = self@;
        let mut live: Vec<u64> = Vec::new();
        assert(book_wf(DialogBookView { live: Set::new(|t: u64| live@.contains(t)), ..v3 }));
        std::mem::swap(&mut live, &mut self.live);
        let ghost before = live@;
        live.push(token);
        proof {
            assert forall|t: u64| #[trigger] live@.contains(t) == (v.live.contains(t) || t == token) by {
                let prev = before;
                assert(live@ =~= before.push(token));
                if live@.contains(t) {
                    let k = choose|k: int| 0 <= k < live@.len() && live@[k] == t;
                    if k < prev.len() {
                        assert(prev[k] == t);
                    }
                }
                if v.live.contains(t) {
                    let k = choose|k: int| 0 <= k < prev.len() && prev[k] == t;
                    assert(live@[k] == t);
                }
                if t == token {
                    assert(live@[prev.len() as int] == t);
                }
            }
        }
        assert(book_wf(DialogBookView { live: Set::new(|t: u64| live@.contains(t)), ..v3 }));
        self.live = live;
        assert(self@.live =~= v.live.insert(token));
        assert(self@.states =~= after_close(v, id).states);
        assert(self@ =~= after_close(v, id));
        token
    }

    /// A scheduled hide is due: whether it still has to run. A hide runs
    /// at most once.
    pub fn hide_due(&mut self, token: u64) -> (run: bool)
        ensures
            book_wf(final(self)@),
            run == old(self)@.live.contains(token),
            final(self)@ == after_hide_due(old(self)@, token),
    {
        proof {
            use_type_invariant(&*self);
        }
        self.lower(token)
    }

    /// The platform reported that the dialog closed.
    pub fn closed(&mut self, id: u32)
        ensures
            book_wf(final(self)@),
            final(self)@ == after_closed(old(self)@, id),
    {
        proof {
            use_type_invariant(&*self);
        }
        match state_copy(&self.states, id) {
            Some(s) => {
                self.put_state(id, DialogState { shown: false, closing: false, ..s });
            },
            None => {},
        }
    }

    /// The dialog control was destroyed.
    pub fn destroy(&mut self, id: u32)
        ensures
            book_wf(final(self)@),
            final(self)@ == after_destroy(old(self)@, id),
    {
        proof {
            use_type_invariant(&*self);
        }
        let ghost v = self@;
        let mut states = table_new();
        assert(book_wf(DialogBookView { states: states@, ..v }));
        std::mem::swap(&mut states, &mut self.states);
        table_remove(&mut states, id);
        assert(book_wf(DialogBookView { states: states@, ..v }));
        self.states = states;
        self.take_pending(id);
    }

    /// The content subtree was mounted (or removed).
    pub fn set_content(&mut self, id: u32, content: Option<ControlId>)
        ensures
            book_wf(final(self)@),
            final(self)@ == after_content(old(self)@, id, content),
    {
        proof {
            use_type_invariant(&*self);
        }
        let s = match state_copy(&self.states, id) {
            Some(s) => s,
            None => DialogState::fresh(),
        };
        self.put_state(id, DialogState { content_id: content, ..s });
    }

    /// The renderer set the dialog's width.
    pub fn record_width(&mut self, id: u32, w: S)
        ensures
            book_wf(final(self)@),
            final(self)@ == after_width(old(self)@, id, w),
    {
        proof {
            use_type_invariant(&*self);
        }
        let s = match state_copy(&self.states, id) {
            Some(s) => s,
            None => DialogState::fresh(),
        };
        self.put_state(id, DialogState { width: Some(w), ..s });
    }

    /// The renderer set the dialog's height.
    pub fn record_height(&mut self, id: u32, h: S)
        ensures
            book_wf(final(self)@),
            final(self)@ == after_height(old(self)@, id, h),
    {
        proof {
            use_type_invariant(&*self);
        }
        let s = match state_copy(&self.states, id) {
            Some(s) => s,
            None => DialogState::fresh(),
        };
        self.put_state(id, DialogState { height: Some(h), ..s });
    }
}

/// Every step keeps the books well formed.
pub proof fn law_steps_keep_books_well_formed<S>(v: DialogBookView<S>, id: u32, token: u64)
    requires
        book_wf(v),
        v.next < u64::MAX,
    ensures
        book_wf(after_open(v, id)),
        book_wf(after_close(v, id)),
        book_wf(after_hide_due(v, token)),
        book_wf(after_closed(v, id)),
        book_wf(after_destroy(v, id)),
{
}

/// The token of a new hide is fresh: no raised flag and no other dialog
/// already uses it.
pub proof fn law_close_token_is_fresh<S>(v: DialogBookView<S>, id: u32, other: u32)
    requires
        book_wf(v),
    ensures
        !v.live.contains(v.next),
        v.pending.contains_key(other) ==> v.pending[other] != v.next,
{
}

/// Reopening one dialog never cancels the hide another dialog waits for.
pub proof fn law_reopen_spares_other_dialogs<S>(v: DialogBookView<S>, id: u32, other: u32)
    requires
        book_wf(v),
        other != id,
        v.pending.contains_key(other),
        v.live.contains(v.pending[other]),
    ensures
        after_open(v, id).pending.contains_key(other),
        after_open(v, id).live.contains(v.pending[other]),
{
}

/// An open request during the close animation is ignored: nothing is
/// shown and no state or raised flag changes.
pub proof fn law_reopen_while_closing_is_ignored<S>(v: DialogBookView<S>, id: u32)
    requires
        is_closing(v, id),
    ensures
        open_step(v, id) is Ignored,
        after_open(v, id).states == v.states,
        after_open(v, id).live == v.live,
{
}

/// A close request starts the close animation exactly when the dialog was
/// shown; a dialog that is not shown keeps its state.
pub proof fn law_close_animates_only_shown_dialogs<S>(v: DialogBookView<S>, id: u32)
    ensures
        is_closing(after_close(v, id), id) == (is_closing(v, id) || (v.states.contains_key(id)
            && v.states[id].shown)),
        !(v.states.contains_key(id) && v.states[id].shown) ==> after_close(v, id).states
            == v.states,
        after_close(v, id).states.contains_key(id) ==> !after_close(v, id).states[id].shown,
{
}

/// `Closed` ends the close animation, and the next open request shows the
/// dialog again.
pub proof fn law_closed_ends_close_animation<S>(v: DialogBookView<S>, id: u32)
    requires
        v.states.contains_key(id),
    ensures
        !is_closing(after_closed(v, id), id),
        !after_closed(v, id).states[id].shown,
        open_step(after_closed(v, id), id) is Show,
{
}

/// An open request that is not ignored lowers the flag of the hide that
/// is pending for the dialog, so that hide never closes the reopened
/// dialog.
pub proof fn law_reopen_cancels_pending_hide<S>(v: DialogBookView<S>, id: u32)
    requires
        !is_closing(v, id),
        v.pending.contains_key(id),
    ensures
        !after_open(v, id).live.contains(v.pending[id]),
{
}

/// A scheduled hide runs at most once.
pub proof fn law_hide_runs_at_most_once<S>(v: DialogBookView<S>, token: u64)
    ensures
        !after_hide_due(v, token).live.contains(token),
{
}

/// Closing a shown dialog: an open request before `Closed` is ignored and
/// the scheduled hide stays due.
pub proof fn law_close_then_early_reopen<S>(v: DialogBookView<S>, id: u32)
    requires
        v.states.contains_key(id),
        v.states[id].shown,
        v.next < u64::MAX,
    ensures
        open_step(after_close(v, id), id) is Ignored,
        after_open(after_close(v, id), id).live.contains(v.next),
{
}

/// Closing a dialog that is not shown (it was already dismissed) does not
/// block the next open, and that open cancels the hide.
pub proof fn law_close_after_dismiss_then_reopen<S>(v: DialogBookView<S>, id: u32)
    requires
        !(v.states.contains_key(id) && v.states[id].shown),
        !is_closing(v, id),
        v.next < u64::MAX,
    ensures
        open_step(after_close(v, id), id) is Show,
        !after_open(after_close(v, id), id).live.contains(v.next),
{
}

} // verus!
