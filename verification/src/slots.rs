//! The element slots of controls besides their children: which property of
//! which control kind holds a header or a pane element.
use crate::containers::ControlKind;
use vstd::prelude::*;

verus! {

/// An element slot of the widget tree.
#[derive(PartialEq, Eq, Structural, Clone, Copy, Debug)]
pub enum Slot {
    Header,
    Pane,
}

/// The platform property a slot fills.
#[derive(PartialEq, Eq, Structural, Clone, Copy, Debug)]
pub enum SlotProperty {
    Header,
    Content,
    Pane,
    RightHeader,
    PaneFooter,
}

/// The header of an expander or a tab item is its `Header`; a title bar
/// shows its header element as `Content`. The pane of a split view is its
/// `Pane`, of a title bar its `RightHeader`, of a navigation view its
/// `PaneFooter`. Other kinds have no such slot and the element is not
/// placed.
pub open spec fn slot_property_of(slot: Slot, kind: ControlKind) -> Option<SlotProperty> {
    match (slot, kind) {
        (Slot::Header, ControlKind::Expander) | (Slot::Header, ControlKind::TabViewItem) => Some(
            SlotProperty::Header,
        ),
        (Slot::Header, ControlKind::TitleBar) => Some(SlotProperty::Content),
        (Slot::Pane, ControlKind::SplitView) => Some(SlotProperty::Pane),
        (Slot::Pane, ControlKind::TitleBar) => Some(SlotProperty::RightHeader),
        (Slot::Pane, ControlKind::NavigationView) => Some(SlotProperty::PaneFooter),
        _ => None,
    }
}

pub fn slot_property(slot: Slot, kind: ControlKind) -> (p: Option<SlotProperty>)
    ensures
        p == slot_property_of(slot, kind),
{
    match (slot, kind) {
        (Slot::Header, ControlKind::Expander) | (Slot::Header, ControlKind::TabViewItem) => Some(
            SlotProperty::Header,
        ),
        (Slot::Header, ControlKind::TitleBar) => Some(SlotProperty::Content),
        (Slot::Pane, ControlKind::SplitView) => Some(SlotProperty::Pane),
        (Slot::Pane, ControlKind::TitleBar) => Some(SlotProperty::RightHeader),
        (Slot::Pane, ControlKind::NavigationView) => Some(SlotProperty::PaneFooter),
        _ => None,
    }
}

} // verus!
