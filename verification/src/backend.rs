//! Bookkeeping of the native backend that outlives a single call: control
//! ids, flyout requests that arrive before their flyout exists, elevation
//! shadows resolved on insertion, and the rich text each text block shows.
use crate::rich_text::{sync_safe, paragraph_plan, paragraphs_view, ParagraphOp, paragraph_ops_view, RichTextParagraph, RichTextState};
use crate::tables::{set_contains, set_insert, set_new, set_remove, table_get, table_insert, table_new, table_remove};
use crate::widget::ControlId;
use crate::platform::names_view;
use rustc_hash::{FxHashMap, FxHashSet};
use vstd::prelude::*;

verus! {

// ---------------------------------------------------------------------------
// Control ids
// ---------------------------------------------------------------------------
/// Hands out control ids: 1, 2, 3, ... Its counter is private, so an id
/// is never handed out twice.
pub struct IdAllocator {
    last: u32,
}

impl IdAllocator {
    /// The last id handed out, 0 before the first.
    pub closed spec fn last_id(&self) -> u32 {
        self.last
    }

    pub fn new() -> (a: Self)
        ensures
            a.last_id() == 0,
    {
        IdAllocator { last: 0 }
    }

    /// The next id: one above every id handed out before.
    pub fn alloc_id(&mut self) -> (id: ControlId)
        requires
            old(self).last_id() < u32::MAX,
        ensures
            id.0 == old(self).last_id() + 1,
            final(self).last_id() == id.0,
    {
        self.last = self.last + 1;
        ControlId::new(self.last)
    }
}

// ---------------------------------------------------------------------------
// Flyouts
// ---------------------------------------------------------------------------
/// What to do with an open or close request of a button's flyout.
#[derive(PartialEq, Eq, Structural, Clone, Copy, Debug)]
pub enum FlyoutOpenAction {
    ShowNow,
    HideNow,
    /// The flyout does not exist yet; the request waits for it.
    Deferred,
}

/// The waiting open requests after a request for button `id`: it waits
/// only while the flyout does not exist, replacing an earlier one.
pub open spec fn open_requested(pending: Map<u32, bool>, id: u32, open: bool, flyout_exists: bool) -> Map<u32, bool> {
    if flyout_exists {
        pending
    } else {
        pending.insert(id, open)
    }
}

/// The waiting entry of `id`, if any.
pub open spec fn waiting<V>(pending: Map<u32, V>, id: u32) -> Option<V> {
    if pending.contains_key(id) {
        Some(pending[id])
    } else {
        None
    }
}

/// Flyout requests and `Closed` handlers (by callback id) that arrived
/// before their flyout was created: props and events reach a button before
/// its flyout content is mounted.
pub struct FlyoutBook {
    pub open_pending: FxHashMap<u32, bool>,
    pub closed_pending: FxHashMap<u32, u64>,
}

impl FlyoutBook {
    pub fn new() -> (b: Self)
        ensures
            b.open_pending@ == Map::<u32, bool>::empty(),
            b.closed_pending@ == Map::<u32, u64>::empty(),
    {
        FlyoutBook { open_pending: table_new(), closed_pending: table_new() }
    }

    /// An open (`true`) or close request for button `id`.
    pub fn request_open(&mut self, id: u32, open: bool, flyout_exists: bool) -> (a: FlyoutOpenAction)
        ensures
            a == (if !flyout_exists {
                FlyoutOpenAction::Deferred
            } else if open {
                FlyoutOpenAction::ShowNow
            } else {
                FlyoutOpenAction::HideNow
            }),
            final(self).open_pending@ == open_requested(old(self).open_pending@, id, open, flyout_exists),
            final(self).closed_pending@ == old(self).closed_pending@,
    {
        if flyout_exists {
            if open {
                FlyoutOpenAction::ShowNow
            } else {
                FlyoutOpenAction::HideNow
            }
        } else {
            table_insert(&mut self.open_pending, id, open);
            FlyoutOpenAction::Deferred
        }
    }

    /// A `Closed` handler for button `id`; whether to attach it now.
    pub fn closed_handler(&mut self, id: u32, handler: u64, flyout_exists: bool) -> (attach_now: bool)
        ensures
            attach_now == flyout_exists,
            final(self).closed_pending@ == (if flyout_exists {
                old(self).closed_pending@
            } else {
                old(self).closed_pending@.insert(id, handler)
            }),
            final(self).open_pending@ == old(self).open_pending@,
    {
        if !flyout_exists {
            table_insert(&mut self.closed_pending, id, handler);
        }
        flyout_exists
    }

    /// The flyout of button `id` now exists: the waiting open request and
    /// `Closed` handler to apply, each taken out of the book.
    pub fn consume(&mut self, id: u32) -> (r: (Option<bool>, Option<u64>))
        ensures
            r.0 == waiting(old(self).open_pending@, id),
            r.1 == waiting(old(self).closed_pending@, id),
            final(self).open_pending@ == old(self).open_pending@.remove(id),
            final(self).closed_pending@ == old(self).closed_pending@.remove(id),
    {
        let open = table_remove(&mut self.open_pending, id);
        let closed = table_remove(&mut self.closed_pending, id);
        (open, closed)
    }

    pub fn destroy(&mut self, id: u32)
        ensures
            final(self).open_pending@ == old(self).open_pending@.remove(id),
            final(self).closed_pending@ == old(self).closed_pending@.remove(id),
    {
        table_remove(&mut self.open_pending, id);
        table_remove(&mut self.closed_pending, id);
    }
}

/// Of the requests made before the flyout exists, the last one is applied
/// when the flyout is created, and it is applied once: taking the waiting
/// request out leaves none behind. A request made while the flyout exists
/// leaves the waiting one as it was.
pub proof fn law_last_deferred_flyout_request_wins(
    pending: Map<u32, bool>,
    id: u32,
    first: bool,
    second: bool,
    later: bool,
)
    ensures
        waiting(open_requested(open_requested(pending, id, first, false), id, second, false), id)
            == Some(second),
        waiting(open_requested(pending, id, second, false).remove(id), id) is None,
        open_requested(pending, id, later, true) == pending,
{
}

// ---------------------------------------------------------------------------
// Elevation
// ---------------------------------------------------------------------------
/// Elevation of controls (depth values of any copyable type `Z`). The
/// shadow falls on the control's direct parent, which is only known when
/// the control is inserted; until then the depth waits in the book.
pub struct ElevationBook<Z> {
    pub depth: FxHashMap<u32, Z>,
    /// Inserted controls whose shadow is in place.
    pub live: FxHashSet<u32>,
}

impl<Z: Copy> ElevationBook<Z> {
    pub fn new() -> (b: Self)
        ensures
            b.depth@ == Map::<u32, Z>::empty(),
            b.live@ == Set::<u32>::empty(),
    {
        ElevationBook { depth: table_new(), live: set_new() }
    }

    /// The elevation of `id` was set; whether to move the control to the
    /// new depth now (its shadow is already in place).
    pub fn set_depth(&mut self, id: u32, z: Z) -> (apply_now: bool)
        ensures
            apply_now == old(self).live@.contains(id),
            final(self).depth@ == old(self).depth@.insert(id, z),
            final(self).live@ == old(self).live@,
    {
        let live = set_contains(&self.live, id);
        table_insert(&mut self.depth, id, z);
        live
    }

    /// The elevation of `id` was unset.
    pub fn unset_depth(&mut self, id: u32)
        ensures
            final(self).depth@ == old(self).depth@.remove(id),
            final(self).live@ == old(self).live@.remove(id),
    {
        table_remove(&mut self.depth, id);
        set_remove(&mut self.live, id);
    }

    /// Control `id` was inserted into a parent: the depth whose shadow to
    /// cast on that parent, if the control has one.
    pub fn inserted(&mut self, id: u32) -> (z: Option<Z>)
        ensures
            z == (if old(self).depth@.contains_key(id) {
                Some(old(self).depth@[id])
            } else {
                None
            }),
            final(self).depth@ == old(self).depth@,
            final(self).live@ == (if old(self).depth@.contains_key(id) {
                old(self).live@.insert(id)
            } else {
                old(self).live@
            }),
    {
        match table_get(&self.depth, id) {
            Some(z) => {
                let z = *z;
                set_insert(&mut self.live, id);
                Some(z)
            },
            None => None,
        }
    }

    pub fn destroy(&mut self, id: u32)
        ensures
            final(self).depth@ == old(self).depth@.remove(id),
            final(self).live@ == old(self).live@.remove(id),
    {
        table_remove(&mut self.depth, id);
        set_remove(&mut self.live, id);
    }
}

// ---------------------------------------------------------------------------
// Rich text blocks
// ---------------------------------------------------------------------------
/// The content every rich text block shows.
pub struct RichTextBook {
    pub blocks: FxHashMap<u32, RichTextState>,
}

/// What block `id` shows according to the book: nothing if it has no
/// entry.
pub open spec fn shown_in(blocks: Map<u32, RichTextState>, id: u32) -> Seq<Seq<crate::rich_text::InlineView>> {
    if blocks.contains_key(id) {
        blocks[id]@
    } else {
        Seq::empty()
    }
}

impl RichTextBook {
    pub fn new() -> (b: Self)
        ensures
            b.blocks@ == Map::<u32, RichTextState>::empty(),
    {
        RichTextBook { blocks: table_new() }
    }

    /// Block `id` is to show `paragraphs`: the update plan from the content
    /// recorded for it and the objects it holds (`blocks` paragraph objects,
    /// `runs` run objects in each), after which the new content is
    /// recorded.
    pub fn set_paragraphs(&mut self, id: u32, paragraphs: &Vec<RichTextParagraph>, blocks: usize, runs: &Vec<usize>) -> (ops: Vec<ParagraphOp>)
        requires
            sync_safe(shown_in(old(self).blocks@, id), paragraphs_view(paragraphs@), blocks as int, runs@),
        ensures
            paragraph_ops_view(ops@) == paragraph_plan(
                shown_in(old(self).blocks@, id),
                paragraphs_view(paragraphs@),
                blocks as int,
                runs@,
            ),
            final(self).blocks@.contains_key(id),
            final(self).blocks@[id]@ == paragraphs_view(paragraphs@),
            forall|k: u32| k != id ==> (#[trigger] final(self).blocks@.contains_key(k)) == old(self).blocks@.contains_key(k),
            forall|k: u32| k != id && old(self).blocks@.contains_key(k) ==> #[trigger] final(self).blocks@[k] == old(self).blocks@[k],
    {
        let mut state = match table_remove(&mut self.blocks, id) {
            Some(s) => s,
            None => RichTextState::new(),
        };
        let ops = state.sync(paragraphs, blocks, runs);
        table_insert(&mut self.blocks, id, state);
        ops
    }

    pub fn destroy(&mut self, id: u32)
        ensures
            final(self).blocks@ == old(self).blocks@.remove(id),
    {
        table_remove(&mut self.blocks, id);
    }
}


// ---------------------------------------------------------------------------
// Resource dictionaries
// ---------------------------------------------------------------------------
/// Whether a key occurs in a list of keys.
pub open spec fn has_key(keys: Seq<Seq<char>>, k: Seq<char>) -> bool {
    exists|i: int| 0 <= i < keys.len() && keys[i] == k
}

fn contains_key(keys: &Vec<String>, k: &String) -> (r: bool)
    ensures
        r == has_key(names_view(keys@), k@),
{
    let ghost kv = names_view(keys@);
    let n = keys.len();
    for i in 0..n
        invariant
            n == keys@.len(),
            kv == names_view(keys@),
            forall|j: int| 0 <= j < i ==> kv[j] != k@,
    {
        if keys[i] == *k {
            assert(kv[i as int] == k@);
            return true;
        }
    }
    false
}

/// The keys of `previous` that `current` does not name, in order.
pub open spec fn stale_of(previous: Seq<Seq<char>>, current: Seq<Seq<char>>) -> Seq<Seq<char>>
    decreases previous.len(),
{
    if previous.len() == 0 {
        Seq::empty()
    } else if has_key(current, previous.last()) {
        stale_of(previous.drop_last(), current)
    } else {
        stale_of(previous.drop_last(), current).push(previous.last())
    }
}

/// The resource keys each control put into its resource dictionary. The
/// stale keys are read before the dictionary is written, and the new keys
/// recorded only once every write succeeded, so a failed write keeps the
/// old record.
pub struct ResourceKeyBook {
    pub keys: FxHashMap<u32, Vec<String>>,
}

pub open spec fn recorded_keys(m: Map<u32, Vec<String>>, id: u32) -> Seq<Seq<char>> {
    if m.contains_key(id) {
        names_view(m[id]@)
    } else {
        Seq::empty()
    }
}

impl ResourceKeyBook {
    pub fn new() -> (b: Self)
        ensures
            b.keys@ == Map::<u32, Vec<String>>::empty(),
    {
        ResourceKeyBook { keys: table_new() }
    }

    /// The keys control `id` recorded that are not among the resources
    /// named by `current`: they must leave its dictionary. They come in the
    /// order in which they were recorded.
    pub fn stale_keys(&self, id: u32, current: &Vec<String>) -> (stale: Vec<String>)
        ensures
            names_view(stale@) == stale_of(recorded_keys(self.keys@, id), names_view(current@)),
            forall|k: Seq<char>| #[trigger] has_key(names_view(stale@), k) == (has_key(
                recorded_keys(self.keys@, id),
                k,
            ) && !has_key(names_view(current@), k)),
    {
        let empty: Vec<String> = Vec::new();
        let previous = match table_get(&self.keys, id) {
            Some(p) => p,
            None => &empty,
        };
        let ghost pv = names_view(previous@);
        assert(pv =~= recorded_keys(self.keys@, id));
        let ghost cv = names_view(current@);
        let mut stale: Vec<String> = Vec::new();
        let n = previous.len();
        for i in 0..n
            invariant
                n == previous@.len(),
                pv == names_view(previous@),
                cv == names_view(current@),
                names_view(stale@) == stale_of(pv.take(i as int), cv),
                forall|k: Seq<char>| #[trigger] has_key(names_view(stale@), k) == (has_key(
                    pv.take(i as int),
                    k,
                ) && !has_key(cv, k)),
        {
            let key = &previous[i];
            let keep_out = contains_key(current, key);
            let ghost before = names_view(stale@);
            if !keep_out {
                stale.push(key.clone());
            }
            proof {
                let seen = pv.take(i as int);
                let seen2 = pv.take(i + 1);
                assert(seen2 =~= seen.push(key@));
                assert(seen2.drop_last() =~= seen);
                if !keep_out {
                    assert(names_view(stale@) =~= before.push(key@));
                } else {
                    assert(names_view(stale@) =~= before);
                }
                assert forall|k: Seq<char>| #[trigger] has_key(names_view(stale@), k) == (has_key(
                    seen2,
                    k,
                ) && !has_key(cv, k)) by {
                    if has_key(seen2, k) {
                        let q = choose|q: int| 0 <= q < seen2.len() && seen2[q] == k;
                        if q < i {
                            assert(seen[q] == k);
                        }
                    }
                    if has_key(seen, k) {
                        let q = choose|q: int| 0 <= q < seen.len() && seen[q] == k;
                        assert(seen2[q] == k);
                    }
                    if k == key@ {
                        assert(seen2[i as int] == k);
                    }
                    if !keep_out {
                        if has_key(before, k) {
                            let q = choose|q: int| 0 <= q < before.len() && before[q] == k;
                            assert(names_view(stale@)[q] == k);
                        }
                        if has_key(names_view(stale@), k) {
                            let q = choose|q: int| 0 <= q < names_view(stale@).len() && names_view(stale@)[q] == k;
                            if q < before.len() {
                                assert(before[q] == k);
                            }
                        }
                        if k == key@ {
                            assert(names_view(stale@)[before.len() as int] == k);
                        }
                    }
                }
            }
        }
        assert(pv.take(n as int) =~= pv);
        stale
    }

    /// Records the resources named by `current` as those of control `id`,
    /// once its dictionary has been written; nothing is recorded for an
    /// empty dictionary.
    pub fn record(&mut self, id: u32, current: &Vec<String>)
        ensures
            current@.len() == 0 ==> final(self).keys@ == old(self).keys@.remove(id),
            current@.len() > 0 ==> final(self).keys@.contains_key(id) && names_view(
                final(self).keys@[id]@,
            ) == names_view(current@),
            current@.len() > 0 ==> forall|j: u32| j != id ==> (#[trigger] final(self).keys@.contains_key(j))
                == old(self).keys@.contains_key(j),
            current@.len() > 0 ==> forall|j: u32| j != id && old(self).keys@.contains_key(j) ==> #[trigger] final(self).keys@[j]
                == old(self).keys@[j],
    {
        if current.len() > 0 {
            let mut copy: Vec<String> = Vec::new();
            let m = current.len();
            for i in 0..m
                invariant
                    m == current@.len(),
                    copy@.len() == i,
                    forall|j: int| 0 <= j < i ==> #[trigger] copy@[j]@ == current@[j]@,
            {
                copy.push(current[i].clone());
            }
            assert(names_view(copy@) =~= names_view(current@));
            table_insert(&mut self.keys, id, copy);
        } else {
            table_remove(&mut self.keys, id);
        }
    }

    pub fn destroy(&mut self, id: u32)
        ensures
            final(self).keys@ == old(self).keys@.remove(id),
    {
        table_remove(&mut self.keys, id);
    }
}

} // verus!
