//! Which platform events the backend subscribes to for an element's
//! pointer and drag handlers, and the pointer capture that comes with
//! them.
use crate::platform::AvailableFormats;
use crate::tables::{table_insert, table_new, table_remove};
use rustc_hash::FxHashMap;
use vstd::prelude::*;

verus! {

/// Which pointer handlers an element has, and whether it captures the
/// pointer on press.
#[derive(PartialEq, Eq, Structural, Clone, Copy, Debug)]
pub struct PointerHandlerSet {
    pub tapped: bool,
    pub right_tapped: bool,
    pub pressed: bool,
    pub released: bool,
    pub moved: bool,
    pub entered: bool,
    pub exited: bool,
    pub capture_lost: bool,
    pub canceled: bool,
    pub capture_on_press: bool,
}

/// A pointer event of a UI element.
#[derive(PartialEq, Eq, Structural, Clone, Copy, Debug)]
pub enum PointerEvent {
    Tapped,
    RightTapped,
    Pressed,
    Released,
    Moved,
    Entered,
    Exited,
    CaptureLost,
    Canceled,
}

pub open spec fn event_if(b: bool, e: PointerEvent) -> Seq<PointerEvent> {
    if b {
        seq![e]
    } else {
        Seq::empty()
    }
}

/// The events subscribed for a handler set, in subscription order. Press
/// and release are subscribed also without a handler when the element
/// captures on press: the press takes the capture, the release gives it
/// back.
pub open spec fn pointer_events_of(h: Option<PointerHandlerSet>) -> Seq<PointerEvent> {
    match h {
        None => Seq::empty(),
        Some(h) => event_if(h.tapped, PointerEvent::Tapped) + event_if(
            h.right_tapped,
            PointerEvent::RightTapped,
        ) + event_if(h.pressed || h.capture_on_press, PointerEvent::Pressed) + event_if(
            h.released || h.capture_on_press,
            PointerEvent::Released,
        ) + event_if(h.moved, PointerEvent::Moved) + event_if(h.entered, PointerEvent::Entered)
            + event_if(h.exited, PointerEvent::Exited) + event_if(
            h.capture_lost,
            PointerEvent::CaptureLost,
        ) + event_if(h.canceled, PointerEvent::Canceled),
    }
}

fn push_event(v: &mut Vec<PointerEvent>, b: bool, e: PointerEvent)
    ensures
        final(v)@ == old(v)@ + event_if(b, e),
{
    if b {
        v.push(e);
    }
    assert(final(v)@ =~= old(v)@ + event_if(b, e));
}

pub proof fn lemma_contains_add<A>(a: Seq<A>, b: Seq<A>, x: A)
    ensures
        (a + b).contains(x) == (a.contains(x) || b.contains(x)),
{
    if a.contains(x) {
        let k = choose|k: int| 0 <= k < a.len() && a[k] == x;
        assert((a + b)[k] == x);
    }
    if b.contains(x) {
        let k = choose|k: int| 0 <= k < b.len() && b[k] == x;
        assert((a + b)[a.len() + k] == x);
    }
    if (a + b).contains(x) {
        let k = choose|k: int| 0 <= k < (a + b).len() && (a + b)[k] == x;
        if k < a.len() {
            assert(a[k] == x);
        } else {
            assert(b[k - a.len()] == x);
        }
    }
}

proof fn lemma_event_if(b: bool, e: PointerEvent, x: PointerEvent)
    ensures
        event_if(b, e).contains(x) == (b && x == e),
        event_if(b, e).len() == (if b { 1int } else { 0 }),
{
    if b && x == e {
        assert(event_if(b, e)[0] == x);
    }
}

/// Whether handler set `h` has a handler for pointer event `e` (press and
/// release count as handled when the element captures on press).
pub open spec fn wants(h: PointerHandlerSet, e: PointerEvent) -> bool {
    match e {
        PointerEvent::Tapped => h.tapped,
        PointerEvent::RightTapped => h.right_tapped,
        PointerEvent::Pressed => h.pressed || h.capture_on_press,
        PointerEvent::Released => h.released || h.capture_on_press,
        PointerEvent::Moved => h.moved,
        PointerEvent::Entered => h.entered,
        PointerEvent::Exited => h.exited,
        PointerEvent::CaptureLost => h.capture_lost,
        PointerEvent::Canceled => h.canceled,
    }
}

/// An element is subscribed to exactly the pointer events it has a
/// handler for, each once; capturing on press subscribes press and
/// release even without their handlers; no handler set subscribes
/// nothing.
pub proof fn law_pointer_subscriptions_match_handlers(h: PointerHandlerSet, x: PointerEvent)
    ensures
        pointer_events_of(Some(h)).contains(x) == wants(h, x),
        h.capture_on_press ==> pointer_events_of(Some(h)).contains(PointerEvent::Pressed)
            && pointer_events_of(Some(h)).contains(PointerEvent::Released),
        pointer_events_of(None).len() == 0,
        pointer_events_of(Some(h)).len() == (if h.tapped { 1int } else { 0 }) + (if h.right_tapped {
            1int
        } else {
            0
        }) + (if h.pressed || h.capture_on_press { 1int } else { 0 }) + (if h.released
            || h.capture_on_press {
            1int
        } else {
            0
        }) + (if h.moved { 1int } else { 0 }) + (if h.entered { 1int } else { 0 }) + (if h.exited {
            1int
        } else {
            0
        }) + (if h.capture_lost { 1int } else { 0 }) + (if h.canceled { 1int } else { 0 }),
{
    let p1 = event_if(h.tapped, PointerEvent::Tapped);
    let p2 = event_if(h.right_tapped, PointerEvent::RightTapped);
    let p3 = event_if(h.pressed || h.capture_on_press, PointerEvent::Pressed);
    let p4 = event_if(h.released || h.capture_on_press, PointerEvent::Released);
    let p5 = event_if(h.moved, PointerEvent::Moved);
    let p6 = event_if(h.entered, PointerEvent::Entered);
    let p7 = event_if(h.exited, PointerEvent::Exited);
    let p8 = event_if(h.capture_lost, PointerEvent::CaptureLost);
    let p9 = event_if(h.canceled, PointerEvent::Canceled);
    lemma_event_if(h.tapped, PointerEvent::Tapped, x);
    lemma_event_if(h.right_tapped, PointerEvent::RightTapped, x);
    lemma_event_if(h.pressed || h.capture_on_press, PointerEvent::Pressed, x);
    lemma_event_if(h.released || h.capture_on_press, PointerEvent::Released, x);
    lemma_event_if(h.moved, PointerEvent::Moved, x);
    lemma_event_if(h.entered, PointerEvent::Entered, x);
    lemma_event_if(h.exited, PointerEvent::Exited, x);
    lemma_event_if(h.capture_lost, PointerEvent::CaptureLost, x);
    lemma_event_if(h.canceled, PointerEvent::Canceled, x);
    let q2 = p1 + p2;
    let q3 = q2 + p3;
    let q4 = q3 + p4;
    let q5 = q4 + p5;
    let q6 = q5 + p6;
    let q7 = q6 + p7;
    let q8 = q7 + p8;
    let q9 = q8 + p9;
    lemma_contains_add(p1, p2, x);
    lemma_contains_add(q2, p3, x);
    lemma_contains_add(q3, p4, x);
    lemma_contains_add(q4, p5, x);
    lemma_contains_add(q5, p6, x);
    lemma_contains_add(q6, p7, x);
    lemma_contains_add(q7, p8, x);
    lemma_contains_add(q8, p9, x);
    assert(pointer_events_of(Some(h)) == q9);
    if h.capture_on_press {
        lemma_event_if(true, PointerEvent::Pressed, PointerEvent::Pressed);
        lemma_event_if(true, PointerEvent::Released, PointerEvent::Released);
        lemma_contains_add(q2, p3, PointerEvent::Pressed);
        lemma_contains_add(q3, p4, PointerEvent::Pressed);
        lemma_contains_add(q4, p5, PointerEvent::Pressed);
        lemma_contains_add(q5, p6, PointerEvent::Pressed);
        lemma_contains_add(q6, p7, PointerEvent::Pressed);
        lemma_contains_add(q7, p8, PointerEvent::Pressed);
        lemma_contains_add(q8, p9, PointerEvent::Pressed);
        lemma_contains_add(q3, p4, PointerEvent::Released);
        lemma_contains_add(q4, p5, PointerEvent::Released);
        lemma_contains_add(q5, p6, PointerEvent::Released);
        lemma_contains_add(q6, p7, PointerEvent::Released);
        lemma_contains_add(q7, p8, PointerEvent::Released);
        lemma_contains_add(q8, p9, PointerEvent::Released);
    }
}

pub fn pointer_subscriptions(h: Option<PointerHandlerSet>) -> (r: Vec<PointerEvent>)
    ensures
        r@ == pointer_events_of(h),
{
    let mut v: Vec<PointerEvent> = Vec::new();
    match h {
        None => {
            assert(v@ =~= pointer_events_of(h));
        },
        Some(h) => {
            push_event(&mut v, h.tapped, PointerEvent::Tapped);
            push_event(&mut v, h.right_tapped, PointerEvent::RightTapped);
            push_event(&mut v, h.pressed || h.capture_on_press, PointerEvent::Pressed);
            push_event(&mut v, h.released || h.capture_on_press, PointerEvent::Released);
            push_event(&mut v, h.moved, PointerEvent::Moved);
            push_event(&mut v, h.entered, PointerEvent::Entered);
            push_event(&mut v, h.exited, PointerEvent::Exited);
            push_event(&mut v, h.capture_lost, PointerEvent::CaptureLost);
            push_event(&mut v, h.canceled, PointerEvent::Canceled);
            assert(v@ =~= Seq::<PointerEvent>::empty() + event_if(h.tapped, PointerEvent::Tapped)
                + event_if(h.right_tapped, PointerEvent::RightTapped) + event_if(
                h.pressed || h.capture_on_press,
                PointerEvent::Pressed,
            ) + event_if(h.released || h.capture_on_press, PointerEvent::Released) + event_if(
                h.moved,
                PointerEvent::Moved,
            ) + event_if(h.entered, PointerEvent::Entered) + event_if(
                h.exited,
                PointerEvent::Exited,
            ) + event_if(h.capture_lost, PointerEvent::CaptureLost) + event_if(
                h.canceled,
                PointerEvent::Canceled,
            ));
        },
    }
    v
}

/// Replacing an element's pointer handlers: whether to release the
/// pointer captures first. That is so when the previous handlers captured
/// on press and the new ones (or their absence) do not, which ends a
/// gesture in progress.
pub fn releases_captures_on_replace(previous_capture: Option<bool>, next: Option<PointerHandlerSet>) -> (r: bool)
    ensures
        r == (previous_capture == Some(true) && !(next matches Some(n) && n.capture_on_press)),
{
    let prev = match previous_capture {
        Some(c) => c,
        None => false,
    };
    let nxt = match next {
        Some(n) => n.capture_on_press,
        None => false,
    };
    prev && !nxt
}

/// What a press reports as the capture's success: the element asked for
/// the capture and the platform granted it (`granted` is `None` when the
/// pointer could not be read or the call failed).
pub fn press_capture_succeeded(capture_on_press: bool, granted: Option<bool>) -> (r: bool)
    ensures
        r == (capture_on_press && granted == Some(true)),
{
    if capture_on_press {
        match granted {
            Some(g) => g,
            None => false,
        }
    } else {
        false
    }
}

/// Which drag handlers an element has.
#[derive(PartialEq, Eq, Structural, Clone, Copy, Debug)]
pub struct DragHandlerSet {
    pub enter: bool,
    pub leave: bool,
    pub over: bool,
    pub drop: bool,
}

/// A drag event of a UI element.
#[derive(PartialEq, Eq, Structural, Clone, Copy, Debug)]
pub enum DragEvent {
    DragEnter,
    DragLeave,
    DragOver,
    Drop,
}

pub open spec fn drag_if(b: bool, e: DragEvent) -> Seq<DragEvent> {
    if b {
        seq![e]
    } else {
        Seq::empty()
    }
}

/// The drag events subscribed for a handler set, in subscription order.
pub open spec fn drag_events_of(h: Option<DragHandlerSet>) -> Seq<DragEvent> {
    match h {
        None => Seq::empty(),
        Some(h) => drag_if(h.enter, DragEvent::DragEnter) + drag_if(h.leave, DragEvent::DragLeave)
            + drag_if(h.over, DragEvent::DragOver) + drag_if(h.drop, DragEvent::Drop),
    }
}

proof fn lemma_drag_if(b: bool, e: DragEvent, x: DragEvent)
    ensures
        drag_if(b, e).contains(x) == (b && x == e),
        drag_if(b, e).len() == (if b { 1int } else { 0 }),
{
    if b && x == e {
        assert(drag_if(b, e)[0] == x);
    }
}

/// An element is subscribed to exactly the drag events it has a handler
/// for, each once.
pub proof fn law_drag_subscriptions_match_handlers(h: DragHandlerSet, x: DragEvent)
    ensures
        drag_events_of(Some(h)).contains(x) == match x {
            DragEvent::DragEnter => h.enter,
            DragEvent::DragLeave => h.leave,
            DragEvent::DragOver => h.over,
            DragEvent::Drop => h.drop,
        },
        drag_events_of(Some(h)).len() == (if h.enter { 1int } else { 0 }) + (if h.leave {
            1int
        } else {
            0
        }) + (if h.over { 1int } else { 0 }) + (if h.drop { 1int } else { 0 }),
        drag_events_of(None).len() == 0,
{
    let p1 = drag_if(h.enter, DragEvent::DragEnter);
    let p2 = drag_if(h.leave, DragEvent::DragLeave);
    let p3 = drag_if(h.over, DragEvent::DragOver);
    let p4 = drag_if(h.drop, DragEvent::Drop);
    lemma_drag_if(h.enter, DragEvent::DragEnter, x);
    lemma_drag_if(h.leave, DragEvent::DragLeave, x);
    lemma_drag_if(h.over, DragEvent::DragOver, x);
    lemma_drag_if(h.drop, DragEvent::Drop, x);
    lemma_contains_add(p1, p2, x);
    lemma_contains_add(p1 + p2, p3, x);
    lemma_contains_add(p1 + p2 + p3, p4, x);
}

pub fn drag_subscriptions(h: Option<DragHandlerSet>) -> (r: Vec<DragEvent>)
    ensures
        r@ == drag_events_of(h),
{
    let mut v: Vec<DragEvent> = Vec::new();
    match h {
        None => {},
        Some(h) => {
            if h.enter {
                v.push(DragEvent::DragEnter);
            }
            if h.leave {
                v.push(DragEvent::DragLeave);
            }
            if h.over {
                v.push(DragEvent::DragOver);
            }
            if h.drop {
                v.push(DragEvent::Drop);
            }
        },
    }
    assert(v@ =~= drag_events_of(h));
    v
}

/// What a drop reads from the dragged data before the handler runs: the
/// storage items when the data offers them, the text when it offers text.
#[derive(PartialEq, Eq, Structural, Clone, Copy, Debug)]
pub struct DropReads {
    pub storage_items: bool,
    pub text: bool,
}

pub fn drop_reads(formats: &AvailableFormats) -> (r: DropReads)
    ensures
        r.storage_items == formats.storage_items,
        r.text == formats.text,
{
    DropReads { storage_items: formats.storage_items, text: formats.text }
}

/// The pointer or drag handlers an element has: whether it captures the
/// pointer on press (never for drag handlers) and the revokers of its
/// subscriptions, which detach them when dropped.
pub struct HandlerEntry {
    pub capture_on_press: bool,
    pub tokens: Vec<u64>,
}

/// The handler entry of every element with pointer (or drag) handlers.
pub struct HandlerBook {
    pub entries: FxHashMap<u32, HandlerEntry>,
}

pub open spec fn entry_of(m: Map<u32, HandlerEntry>, id: u32) -> Option<HandlerEntry> {
    if m.contains_key(id) {
        Some(m[id])
    } else {
        None
    }
}

/// The entry exists and captures the pointer on press.
pub open spec fn captures(e: Option<HandlerEntry>) -> bool {
    match e {
        Some(p) => p.capture_on_press,
        None => false,
    }
}

impl HandlerBook {
    pub fn new() -> (b: Self)
        ensures
            b.entries@ == Map::<u32, HandlerEntry>::empty(),
    {
        HandlerBook { entries: table_new() }
    }

    /// Element `id` gets a new handler set (`next`, with the revokers of
    /// its subscriptions), or none. The previous entry is taken out and
    /// handed back to be dropped, whether or not the element exists. An
    /// element that exists releases its pointer captures when the previous
    /// handlers captured on press and the new ones do not; its new entry is
    /// recorded when there is one. Other elements keep theirs.
    pub fn replace(&mut self, id: u32, element_exists: bool, next: Option<HandlerEntry>) -> (r: (Option<HandlerEntry>, bool))
        ensures
            r.0 == entry_of(old(self).entries@, id),
            r.1 == (element_exists && captures(entry_of(old(self).entries@, id)) && !captures(next)),
            final(self).entries@ == (if element_exists && next is Some {
                old(self).entries@.remove(id).insert(id, next.unwrap())
            } else {
                old(self).entries@.remove(id)
            }),
    {
        let prev = table_remove(&mut self.entries, id);
        if !element_exists {
            return (prev, false);
        }
        let previous_capture = match &prev {
            Some(p) => p.capture_on_press,
            None => false,
        };
        let next_capture = match &next {
            Some(n) => n.capture_on_press,
            None => false,
        };
        let release = previous_capture && !next_capture;
        match next {
            Some(n) => {
                table_insert(&mut self.entries, id, n);
            },
            None => {},
        }
        (prev, release)
    }

    /// Element `id` is destroyed: its entry is taken out, and its pointer
    /// captures are released when it captured on press and still exists.
    pub fn destroy(&mut self, id: u32, element_exists: bool) -> (release: bool)
        ensures
            release == (element_exists && captures(entry_of(old(self).entries@, id))),
            final(self).entries@ == old(self).entries@.remove(id),
    {
        let prev = table_remove(&mut self.entries, id);
        match prev {
            Some(p) => element_exists && p.capture_on_press,
            None => false,
        }
    }
}

} // verus!
