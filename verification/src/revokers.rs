//! The event revokers each control keeps, by event. Dropping a revoker
//! detaches its handler, so which revokers are kept decides which handlers
//! stay attached. Revokers are handles of type `u64`.
use crate::dialog::{after_attach, book_wf, DialogBook};
use crate::events::UiEvent;
use crate::tables::{table_insert, table_new, table_remove};
use rustc_hash::FxHashMap;
use vstd::prelude::*;

verus! {

/// The revokers kept for one event of a control.
pub struct EventRevokers {
    pub event: UiEvent,
    pub tokens: Vec<u64>,
}

/// The revokers of event `e` in a control's list (the last entry for `e`
/// counts).
pub open spec fn lookup(s: Seq<EventRevokers>, e: UiEvent) -> Seq<u64>
    decreases s.len(),
{
    if s.len() == 0 {
        Seq::empty()
    } else if s.last().event == e {
        s.last().tokens@
    } else {
        lookup(s.drop_last(), e)
    }
}

pub open spec fn revokers_of(m: Map<u32, Vec<EventRevokers>>, id: u32, e: UiEvent) -> Seq<u64> {
    if m.contains_key(id) {
        lookup(m[id]@, e)
    } else {
        Seq::empty()
    }
}

/// The revokers kept by every control, for every event.
pub struct RevokerBook {
    pub by_control: FxHashMap<u32, Vec<EventRevokers>>,
}

impl View for RevokerBook {
    type V = Map<(u32, UiEvent), Seq<u64>>;

    open spec fn view(&self) -> Map<(u32, UiEvent), Seq<u64>> {
        Map::new(|k: (u32, UiEvent)| true, |k: (u32, UiEvent)| revokers_of(self.by_control@, k.0, k.1))
    }
}

/// Attaching a handler: its revokers replace those of the event, which
/// detaches the handler attached before; a handler that yielded no
/// revoker leaves the event as it was.
pub open spec fn attached(v: Map<(u32, UiEvent), Seq<u64>>, id: u32, e: UiEvent, t: Seq<u64>) -> Map<(u32, UiEvent), Seq<u64>> {
    if t.len() == 0 {
        v
    } else {
        v.insert((id, e), t)
    }
}

/// Adding revokers next to those of the event, which stay attached.
pub open spec fn added(v: Map<(u32, UiEvent), Seq<u64>>, id: u32, e: UiEvent, t: Seq<u64>) -> Map<(u32, UiEvent), Seq<u64>> {
    v.insert((id, e), v[(id, e)] + t)
}

/// Detaching the handlers of an event.
pub open spec fn detached(v: Map<(u32, UiEvent), Seq<u64>>, id: u32, e: UiEvent) -> Map<(u32, UiEvent), Seq<u64>> {
    v.insert((id, e), Seq::empty())
}

/// Destroying a control detaches all its handlers.
pub open spec fn destroyed(v: Map<(u32, UiEvent), Seq<u64>>, id: u32) -> Map<(u32, UiEvent), Seq<u64>> {
    Map::new(
        |k: (u32, UiEvent)| true,
        |k: (u32, UiEvent)| if k.0 == id {
            Seq::<u64>::empty()
        } else {
            v[k]
        },
    )
}

fn copy_tokens(v: &Vec<u64>) -> (r: Vec<u64>)
    ensures
        r@ == v@,
{
    let mut r: Vec<u64> = Vec::new();
    let n = v.len();
    for i in 0..n
        invariant
            n == v@.len(),
            r@ == v@.take(i as int),
    {
        r.push(v[i]);
        assert(v@.take(i + 1) =~= v@.take(i as int).push(v@[i as int]));
    }
    assert(v@.take(n as int) =~= v@);
    r
}

/// A control's list without event `e`, and the revokers `e` had.
fn split_event(entries: &Vec<EventRevokers>, e: UiEvent) -> (r: (Vec<EventRevokers>, Vec<u64>))
    ensures
        lookup(r.0@, e) == Seq::<u64>::empty(),
        forall|e2: UiEvent| e2 != e ==> #[trigger] lookup(r.0@, e2) == lookup(entries@, e2),
        r.1@ == lookup(entries@, e),
{
    let mut kept: Vec<EventRevokers> = Vec::new();
    let mut acc: Vec<u64> = Vec::new();
    let n = entries.len();
    for i in 0..n
        invariant
            n == entries@.len(),
            lookup(kept@, e) == Seq::<u64>::empty(),
            forall|e2: UiEvent| e2 != e ==> #[trigger] lookup(kept@, e2) == lookup(entries@.take(i as int), e2),
            acc@ == lookup(entries@.take(i as int), e),
    {
        let x = &entries[i];
        let ghost seen = entries@.take(i as int);
        let ghost seen2 = entries@.take(i + 1);
        assert(seen2.drop_last() =~= seen);
        assert(seen2.last() == entries@[i as int]);
        if x.event == e {
            acc = copy_tokens(&x.tokens);
            assert forall|e2: UiEvent| e2 != e implies #[trigger] lookup(kept@, e2) == lookup(seen2, e2) by {
                assert(lookup(seen2, e2) == lookup(seen, e2));
            }
        } else {
            let ghost before = kept@;
            let y = EventRevokers { event: x.event, tokens: copy_tokens(&x.tokens) };
            kept.push(y);
            assert(kept@.drop_last() =~= before);
            assert(lookup(kept@, e) == lookup(before, e));
            assert(lookup(seen2, e) == lookup(seen, e));
            assert forall|e2: UiEvent| e2 != e implies #[trigger] lookup(kept@, e2) == lookup(seen2, e2) by {
                if e2 != x.event {
                    assert(lookup(kept@, e2) == lookup(before, e2));
                    assert(lookup(seen2, e2) == lookup(seen, e2));
                }
            }
        }
    }
    assert(entries@.take(n as int) =~= entries@);
    (kept, acc)
}

impl RevokerBook {
    pub fn new() -> (b: Self)
        ensures
            forall|id: u32, e: UiEvent| #[trigger] b@[(id, e)] == Seq::<u64>::empty(),
    {
        RevokerBook { by_control: table_new() }
    }

    /// Replaces the entry of control `id` by `entries` and shows that only
    /// the revokers of `id` can have changed.
    fn put(&mut self, id: u32, entries: Vec<EventRevokers>)
        ensures
            forall|j: u32, e: UiEvent| j != id ==> #[trigger] final(self)@[(j, e)] == old(self)@[(j, e)],
            forall|e: UiEvent| #[trigger] final(self)@[(id, e)] == lookup(entries@, e),
    {
        table_insert(&mut self.by_control, id, entries);
    }

    fn entries_of(&mut self, id: u32) -> (r: Vec<EventRevokers>)
        ensures
            forall|e: UiEvent| #[trigger] lookup(r@, e) == old(self)@[(id, e)],
            forall|j: u32, e: UiEvent| j != id ==> #[trigger] final(self)@[(j, e)] == old(self)@[(j, e)],
    {
        match table_remove(&mut self.by_control, id) {
            Some(v) => v,
            None => Vec::new(),
        }
    }

    /// A handler of event `e` was attached to control `id` and yielded the
    /// revokers `tokens`.
    pub fn attach(&mut self, id: u32, e: UiEvent, tokens: Vec<u64>)
        ensures
            final(self)@ == attached(old(self)@, id, e, tokens@),
    {
        if tokens.len() == 0 {
            return;
        }
        let ghost v0 = self@;
        let entries = self.entries_of(id);
        let (mut kept, _) = split_event(&entries, e);
        let ghost before = kept@;
        let ghost t = tokens@;
        kept.push(EventRevokers { event: e, tokens });
        assert(kept@.drop_last() =~= before);
        self.put(id, kept);
        assert forall|k: (u32, UiEvent)| #[trigger] self@[k] == attached(v0, id, e, t)[k] by {
            if k.0 == id && k.1 != e {
                assert(lookup(kept@, k.1) == lookup(before, k.1));
            }
        }
        assert(self@ =~= attached(v0, id, e, t));
    }

    /// Revokers `tokens` are kept for event `e` of control `id` next to
    /// those it has.
    pub fn add(&mut self, id: u32, e: UiEvent, tokens: Vec<u64>)
        ensures
            final(self)@ == added(old(self)@, id, e, tokens@),
    {
        let ghost v0 = self@;
        let entries = self.entries_of(id);
        let (mut kept, mut all) = split_event(&entries, e);
        let ghost before = kept@;
        let ghost prev = all@;
        let n = tokens.len();
        for i in 0..n
            invariant
                n == tokens@.len(),
                all@ == prev + tokens@.take(i as int),
        {
            all.push(tokens[i]);
            assert(tokens@.take(i + 1) =~= tokens@.take(i as int).push(tokens@[i as int]));
            assert(prev + tokens@.take(i + 1) =~= (prev + tokens@.take(i as int)).push(tokens@[i as int]));
        }
        assert(tokens@.take(n as int) =~= tokens@);
        kept.push(EventRevokers { event: e, tokens: all });
        assert(kept@.drop_last() =~= before);
        self.put(id, kept);
        assert forall|k: (u32, UiEvent)| #[trigger] self@[k] == added(v0, id, e, tokens@)[k] by {
            if k.0 == id && k.1 != e {
                assert(lookup(kept@, k.1) == lookup(before, k.1));
            }
        }
        assert(self@ =~= added(v0, id, e, tokens@));
    }

    /// Detaches the handlers of event `e` of control `id`: their revokers
    /// are handed back to be dropped.
    pub fn detach(&mut self, id: u32, e: UiEvent) -> (revoked: Vec<u64>)
        ensures
            revoked@ == old(self)@[(id, e)],
            final(self)@ == detached(old(self)@, id, e),
    {
        let ghost v0 = self@;
        let entries = self.entries_of(id);
        let (kept, revoked) = split_event(&entries, e);
        self.put(id, kept);
        assert(self@ =~= detached(v0, id, e));
        revoked
    }

    /// Control `id` is destroyed: all its handlers are detached.
    pub fn destroy(&mut self, id: u32)
        ensures
            final(self)@ == destroyed(old(self)@, id),
    {
        let ghost v0 = self@;
        let _ = self.entries_of(id);
        self.put(id, Vec::new());
        assert(self@ =~= destroyed(v0, id));
    }
}

/// A content dialog's closing cleanup is added next to the user's `Closed`
/// handler, so both stay attached: the user still hears the result, and
/// the cleanup still runs.
pub proof fn law_dialog_cleanup_keeps_closed_handler(
    v: Map<(u32, UiEvent), Seq<u64>>,
    id: u32,
    user: Seq<u64>,
    cleanup: Seq<u64>,
)
    requires
        user.len() > 0,
    ensures
        added(attached(v, id, UiEvent::Closed, user), id, UiEvent::Closed, cleanup)[(id, UiEvent::Closed)]
            == user + cleanup,
{
}

/// Attaching a handler again replaces the first one; detaching then hands
/// back exactly the revokers kept; other controls and events are never
/// touched.
pub proof fn law_attach_replaces_and_detach_hands_back(
    v: Map<(u32, UiEvent), Seq<u64>>,
    id: u32,
    e: UiEvent,
    first: Seq<u64>,
    second: Seq<u64>,
    j: u32,
    f: UiEvent,
)
    requires
        second.len() > 0,
        (j, f) != (id, e),
    ensures
        attached(attached(v, id, e, first), id, e, second)[(id, e)] == second,
        detached(attached(v, id, e, second), id, e)[(id, e)] == Seq::<u64>::empty(),
        attached(v, id, e, second)[(j, f)] == v[(j, f)],
        added(v, id, e, second)[(j, f)] == v[(j, f)],
        detached(v, id, e)[(j, f)] == v[(j, f)],
{
}

/// A dialog's closing cleanup was attached with revoker `token`: the book
/// records it as attached, and the revoker is kept beside the user's
/// `Closed` handler rather than in its place.
pub fn dialog_cleanup_attached<S: Copy>(dialogs: &mut DialogBook<S>, revokers: &mut RevokerBook, id: u32, token: u64)
    ensures
        book_wf(final(dialogs)@),
        final(dialogs)@ == after_attach(old(dialogs)@, id),
        final(revokers)@ == added(old(revokers)@, id, UiEvent::Closed, seq![token]),
{
    dialogs.closing_attached(id);
    let mut t: Vec<u64> = Vec::new();
    t.push(token);
    assert(t@ =~= seq![token]);
    revokers.add(id, UiEvent::Closed, t);
}

} // verus!
