//! Which platform interface receives a shared appearance property of a
//! control: its own setter, the grid's padding, the panel's or the
//! control's base interface, or none.
use crate::containers::ControlKind;
use vstd::prelude::*;

verus! {

/// The appearance properties that several control classes carry.
#[derive(PartialEq, Eq, Structural, Clone, Copy, Debug)]
pub enum SharedProp {
    Padding,
    Background,
    Foreground,
    BorderBrush,
    BorderThickness,
    FontSize,
    FontWeight,
    FontFamily,
}

/// Where the property is set.
#[derive(PartialEq, Eq, Structural, Clone, Copy, Debug)]
pub enum Receiver {
    /// The control's own setter.
    Own,
    /// The padding of the grid interface (a grid is a panel, not a control).
    GridPadding,
    /// The panel base interface.
    Panel,
    /// The control base interface.
    Control,
    /// No interface carries it: the property is reported as unhandled.
    Unhandled,
}

pub open spec fn has_own_setter(prop: SharedProp, kind: ControlKind) -> bool {
    match prop {
        SharedProp::Padding => kind == ControlKind::Border || kind == ControlKind::StackPanel || kind
            == ControlKind::TextBlock || kind == ControlKind::RichTextBlock,
        SharedProp::Background | SharedProp::BorderBrush | SharedProp::BorderThickness => kind
            == ControlKind::Border,
        SharedProp::Foreground | SharedProp::FontSize | SharedProp::FontFamily => kind
            == ControlKind::TextBlock || kind == ControlKind::RichTextBlock,
        SharedProp::FontWeight => kind == ControlKind::TextBlock,
    }
}

/// The receiver of `prop` on a control of `kind`; `is_panel` and
/// `is_control` say whether the control implements the panel and the
/// control base interfaces. Kinds with their own setter use it; a grid or
/// a swap chain panel takes padding through the grid interface; only a
/// background goes to a panel; the rest falls back to the control
/// interface when there is one.
pub open spec fn receiver_of(prop: SharedProp, kind: ControlKind, is_panel: bool, is_control: bool) -> Receiver {
    if has_own_setter(prop, kind) {
        Receiver::Own
    } else if prop == SharedProp::Padding && (kind == ControlKind::Grid || kind
        == ControlKind::SwapChainPanel) {
        Receiver::GridPadding
    } else if prop == SharedProp::Background && is_panel {
        Receiver::Panel
    } else if is_control {
        Receiver::Control
    } else {
        Receiver::Unhandled
    }
}

fn own_setter(prop: SharedProp, kind: ControlKind) -> (r: bool)
    ensures
        r == has_own_setter(prop, kind),
{
    match prop {
        SharedProp::Padding => match kind {
            ControlKind::Border | ControlKind::StackPanel | ControlKind::TextBlock
            | ControlKind::RichTextBlock => true,
            _ => false,
        },
        SharedProp::Background | SharedProp::BorderBrush | SharedProp::BorderThickness => match kind {
            ControlKind::Border => true,
            _ => false,
        },
        SharedProp::Foreground | SharedProp::FontSize | SharedProp::FontFamily => match kind {
            ControlKind::TextBlock | ControlKind::RichTextBlock => true,
            _ => false,
        },
        SharedProp::FontWeight => match kind {
            ControlKind::TextBlock => true,
            _ => false,
        },
    }
}

pub fn prop_receiver(prop: SharedProp, kind: ControlKind, is_panel: bool, is_control: bool) -> (r: Receiver)
    ensures
        r == receiver_of(prop, kind, is_panel, is_control),
{
    if own_setter(prop, kind) {
        Receiver::Own
    } else if prop == SharedProp::Padding && (kind == ControlKind::Grid || kind
        == ControlKind::SwapChainPanel) {
        Receiver::GridPadding
    } else if prop == SharedProp::Background && is_panel {
        Receiver::Panel
    } else if is_control {
        Receiver::Control
    } else {
        Receiver::Unhandled
    }
}

} // verus!
