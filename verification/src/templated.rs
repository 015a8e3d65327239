//! Virtualized (templated) lists: the item source of boxed row indices,
//! drag reordering read back as a permutation, flip view rows, and the
//! follow-the-tail intent of a list's scroll position.
use vstd::prelude::*;

verus! {

// ---------------------------------------------------------------------------
// Boxed row indices
// ---------------------------------------------------------------------------
/// The value a row index is boxed as in the item source (a 32-bit
/// integer, truncating).
pub fn box_index(i: usize) -> (v: i32)
    ensures
        v == i as i32,
{
    i as i32
}

/// The row index a boxed value stands for: non-negative values only.
pub fn unbox_index(v: i32) -> (i: Option<usize>)
    ensures
        i == (if v >= 0 {
            Some(v as usize)
        } else {
            None
        }),
{
    if v >= 0 {
        Some(v as usize)
    } else {
        None
    }
}

/// Boxing then unboxing gives every index that fits back.
pub proof fn law_unbox_inverts_box(i: usize)
    requires
        i <= i32::MAX,
    ensures
        (if i as i32 >= 0 {
            Some((i as i32) as usize)
        } else {
            None::<usize>
        }) == Some(i),
{
}

// ---------------------------------------------------------------------------
// Item source
// ---------------------------------------------------------------------------
/// How to bring a list's item source to a new row count.
#[derive(PartialEq, Eq, Structural, Clone, Copy, Debug)]
pub enum SourcePlan {
    /// No source yet: install the row template and a source holding the
    /// boxed indices `0..count`.
    Create(usize),
    /// Append the boxed indices `from..to`.
    Append(usize, usize),
    /// Remove this many values from the end.
    RemoveAtEnd(usize),
}

pub open spec fn source_plan(current: Option<usize>, count: usize) -> SourcePlan {
    match current {
        None => SourcePlan::Create(count),
        Some(c) => if count > c {
            SourcePlan::Append(c, count)
        } else {
            SourcePlan::RemoveAtEnd((c - count) as usize)
        },
    }
}

/// Plans a row count change; `current` is the size of the existing source,
/// if there is one.
pub fn plan_item_source(current: Option<usize>, count: usize) -> (p: SourcePlan)
    ensures
        p == source_plan(current, count),
{
    match current {
        None => SourcePlan::Create(count),
        Some(c) => if count > c {
            SourcePlan::Append(c, count)
        } else {
            SourcePlan::RemoveAtEnd(c - count)
        },
    }
}

/// The identity source of `n` rows.
pub open spec fn identity_source(n: nat) -> Seq<int> {
    Seq::new(n, |i: int| i)
}

/// The source after carrying out a plan.
pub open spec fn apply_source_plan(s: Seq<int>, p: SourcePlan) -> Seq<int> {
    match p {
        SourcePlan::Create(n) => identity_source(n as nat),
        SourcePlan::Append(from, to) => s + Seq::new((to - from) as nat, |k: int| from + k),
        SourcePlan::RemoveAtEnd(k) => s.take(s.len() - k),
    }
}

/// Starting from no source, or from the identity source of the current
/// size, the plan leaves the identity source of the new row count.
pub proof fn law_source_stays_identity(current: Option<usize>, count: usize)
    ensures
        apply_source_plan(
            match current {
                Some(c) => identity_source(c as nat),
                None => Seq::empty(),
            },
            source_plan(current, count),
        ) == identity_source(count as nat),
{
    match current {
        None => {},
        Some(c) => {
            if count > c {
                assert(identity_source(c as nat) + Seq::new(
                    (count - c) as nat,
                    |k: int| c + k,
                ) =~= identity_source(count as nat));
            } else {
                assert(identity_source(c as nat).take(c - (c - count)) =~= identity_source(
                    count as nat,
                ));
            }
        },
    }
}

// ---------------------------------------------------------------------------
// Drag reordering
// ---------------------------------------------------------------------------
pub open spec fn all_unboxed(values: Seq<Option<usize>>) -> bool {
    forall|i: int| 0 <= i < values.len() ==> (#[trigger] values[i]) is Some
}

pub open spec fn unboxed(values: Seq<Option<usize>>) -> Seq<usize> {
    values.map_values(|v: Option<usize>| v.unwrap())
}

pub open spec fn is_identity_order(order: Seq<usize>) -> bool {
    forall|i: int| 0 <= i < order.len() ==> #[trigger] order[i] == i
}

/// What a finished drag reorder reports: nothing when a value could not
/// be read back or the order is unchanged, otherwise the new order of the
/// rows as they stood before the drag.
pub open spec fn reorder_result(values: Seq<Option<usize>>) -> Option<Seq<usize>> {
    if all_unboxed(values) && !is_identity_order(unboxed(values)) {
        Some(unboxed(values))
    } else {
        None
    }
}

/// Reads the permutation a drag reorder left in the item source. When it
/// reports an order, the host resets the source to the identity and hands
/// the order to the list's handler.
pub fn reorder_outcome(values: &Vec<Option<usize>>) -> (r: Option<Vec<usize>>)
    ensures
        match r {
            Some(o) => reorder_result(values@) == Some(o@),
            None => reorder_result(values@) is None,
        },
{
    let n = values.len();
    let mut order: Vec<usize> = Vec::new();
    let mut changed = false;
    for i in 0..n
        invariant
            n == values@.len(),
            order@.len() == i,
            forall|k: int| 0 <= k < i ==> (#[trigger] values@[k]) is Some,
            forall|k: int| 0 <= k < i ==> #[trigger] order@[k] == values@[k].unwrap(),
            changed == exists|k: int| 0 <= k < i && #[trigger] order@[k] != k,
    {
        match values[i] {
            Some(idx) => {
                let ghost prev = order@;
                let ghost was = changed;
                if idx != i {
                    changed = true;
                }
                order.push(idx);
                proof {
                    assert(order@ =~= prev.push(idx));
                    if idx != i {
                        assert(order@[i as int] != i);
                    }
                    if was {
                        let k = choose|k: int| 0 <= k < i && #[trigger] prev[k] != k;
                        assert(order@[k] != k);
                    }
                    if !changed {
                        assert forall|k: int| 0 <= k < i + 1 implies #[trigger] order@[k] == k by {
                            if k < i {
                                assert(order@[k] == prev[k]);
                            }
                        }
                    }
                }
            },
            None => {
                assert(!all_unboxed(values@));
                return None;
            },
        }
    }
    assert(order@ =~= unboxed(values@));
    if changed {
        Some(order)
    } else {
        None
    }
}

/// A reported order is never the identity: an unchanged order is not
/// reported.
pub proof fn law_reported_order_is_a_change(values: Seq<Option<usize>>)
    ensures
        reorder_result(values) matches Some(o) ==> !is_identity_order(o),
{
}

// ---------------------------------------------------------------------------
// Flip view rows
// ---------------------------------------------------------------------------
/// How to put content into, or take it out of, row `row` of a flip view.
#[derive(PartialEq, Eq, Structural, Clone, Copy, Debug)]
pub enum FlipRowPlan {
    /// Replace the item at the row.
    SetAt(usize),
    /// Append this many placeholder items, then the content.
    PadAndAppend(usize),
    /// Remove the item at the row.
    RemoveAt(usize),
    /// Nothing to do.
    Nothing,
}

pub open spec fn flip_row_plan(len: usize, row: usize, has_content: bool) -> FlipRowPlan {
    if has_content {
        if row < len {
            FlipRowPlan::SetAt(row)
        } else {
            FlipRowPlan::PadAndAppend((row - len) as usize)
        }
    } else if row < len {
        FlipRowPlan::RemoveAt(row)
    } else {
        FlipRowPlan::Nothing
    }
}

pub fn plan_flip_row(len: usize, row: usize, has_content: bool) -> (p: FlipRowPlan)
    ensures
        p == flip_row_plan(len, row, has_content),
{
    if has_content {
        if row < len {
            FlipRowPlan::SetAt(row)
        } else {
            FlipRowPlan::PadAndAppend(row - len)
        }
    } else if row < len {
        FlipRowPlan::RemoveAt(row)
    } else {
        FlipRowPlan::Nothing
    }
}

/// The items after carrying out a flip row plan; `None` is a placeholder.
pub open spec fn apply_flip_row(items: Seq<Option<u32>>, p: FlipRowPlan, content: Option<u32>) -> Seq<Option<u32>> {
    match p {
        FlipRowPlan::SetAt(r) => items.update(r as int, content),
        FlipRowPlan::PadAndAppend(k) => items + Seq::new(k as nat, |q: int| None::<u32>) + seq![content],
        FlipRowPlan::RemoveAt(r) => items.remove(r as int),
        FlipRowPlan::Nothing => items,
    }
}

/// Putting content into a row leaves it at exactly that row, with the
/// other rows as they were and placeholders before it where needed.
pub proof fn law_flip_row_content_lands_at_row(items: Seq<Option<u32>>, row: usize, content: u32)
    requires
        items.len() <= usize::MAX,
    ensures
        ({
            let after = apply_flip_row(
                items,
                flip_row_plan(items.len() as usize, row, true),
                Some(content),
            );
            &&& after[row as int] == Some(content)
            &&& after.len() == if row < items.len() {
                items.len() as int
            } else {
                row + 1
            }
            &&& forall|i: int| 0 <= i < items.len() && i != row ==> after[i] == items[i]
        }),
{
}

// ---------------------------------------------------------------------------
// Selection and scrolling to an index
// ---------------------------------------------------------------------------
/// How many rows of a list may be selected.
#[derive(PartialEq, Eq, Structural, Clone, Copy, Debug)]
pub enum SelectionMode {
    /// No row can be selected.
    Disabled,
    Single,
    Multiple,
    Extended,
}

/// The platform's `ListViewSelectionMode` value for a selection mode.
pub fn list_view_selection_mode(m: SelectionMode) -> (v: i32)
    ensures
        v == (match m {
            SelectionMode::Disabled => 0i32,
            SelectionMode::Single => 1i32,
            SelectionMode::Multiple => 2i32,
            SelectionMode::Extended => 3i32,
        }),
{
    match m {
        SelectionMode::Disabled => 0,
        SelectionMode::Single => 1,
        SelectionMode::Multiple => 2,
        SelectionMode::Extended => 3,
    }
}

/// The item a list scrolls into view for a requested index: none for a
/// negative index or one past the items.
pub fn scroll_target(index: i32, len: u32) -> (t: Option<u32>)
    ensures
        t == (if 0 <= index && index < len {
            Some(index as u32)
        } else {
            None
        }),
{
    if index < 0 {
        None
    } else if (index as u32) < len {
        Some(index as u32)
    } else {
        None
    }
}

} // verus!
