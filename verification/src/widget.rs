//! Shared value types of the widget layer: control ids, colours, element
//! trees as far as the widgets here carry them, modifiers and callbacks.
use std::marker::PhantomData;
use vstd::prelude::*;

verus! {

/// Identifies one native control created by a backend.
#[derive(PartialEq, Eq, Structural, Clone, Copy, Debug)]
pub struct ControlId(pub u32);

impl ControlId {
    pub fn new(raw: u32) -> (r: Self)
        ensures
            r.0 == raw,
    {
        ControlId(raw)
    }

    pub fn raw(&self) -> (r: u32)
        ensures
            r == self.0,
    {
        self.0
    }
}

/// An ARGB colour.
#[derive(PartialEq, Eq, Structural, Clone, Copy, Debug)]
pub struct Color {
    pub a: u8,
    pub r: u8,
    pub g: u8,
    pub b: u8,
}

impl Color {
    /// An opaque colour from its red, green and blue parts.
    pub fn rgb(r: u8, g: u8, b: u8) -> (c: Color)
        ensures
            c == (Color { a: 255, r, g, b }),
    {
        Color { a: 255, r, g, b }
    }
}

/// A registered event handler taking values of type `T`, named by the
/// number under which the host keeps the closure.
pub struct Callback<T> {
    pub id: u64,
    pub arg: PhantomData<T>,
}

impl<T> Callback<T> {
    pub fn new(id: u64) -> (r: Self)
        ensures
            r.id == id,
    {
        Callback { id, arg: PhantomData }
    }
}

impl<T> Clone for Callback<T> {
    fn clone(&self) -> (r: Self)
        ensures
            r.id == self.id,
    {
        Callback { id: self.id, arg: PhantomData }
    }
}

/// Where a flyout opens relative to its target; the number is the
/// `FlyoutPlacementMode` value of the platform (0 is `Top`).
#[derive(PartialEq, Eq, Structural, Clone, Copy, Debug)]
pub struct FlyoutPlacementMode(pub i32);

impl FlyoutPlacementMode {
    pub fn top() -> (r: Self)
        ensures
            r.0 == 0,
    {
        FlyoutPlacementMode(0)
    }
}

/// A text element: the content a widget mounts as a `TextBlock`.
#[derive(PartialEq, Debug)]
pub struct TextBlock {
    pub text: String,
}

impl TextBlock {
    pub fn new(text: &str) -> (t: Self)
        ensures
            t.text@ == text@,
    {
        TextBlock { text: String::from_str(text) }
    }
}

/// A declarative element subtree mounted into a widget's content slot.
#[derive(PartialEq, Debug)]
pub enum Element {
    Empty,
    TextBlock(TextBlock),
}

impl Element {
    /// The platform kind name of the element.
    pub fn kind_name(&self) -> (r: &'static str)
        ensures
            r@ == (match self {
                Element::Empty => "Empty"@,
                Element::TextBlock(_) => "TextBlock"@,
            }),
    {
        proof {
            reveal_strlit("Empty");
            reveal_strlit("TextBlock");
        }
        match self {
            Element::Empty => "Empty",
            Element::TextBlock(_) => "TextBlock",
        }
    }
}

/// `AutomationLiveSetting` of the platform: 0 is `Off`.
#[derive(PartialEq, Eq, Structural, Clone, Copy, Debug)]
pub struct AutomationLiveSetting(pub i32);

/// `AutomationHeadingLevel` of the platform: 0 is `None`.
#[derive(PartialEq, Eq, Structural, Clone, Copy, Debug)]
pub struct AutomationHeadingLevel(pub i32);

/// Accessibility properties a widget may carry.
pub struct AccessibilityModifiers {
    pub automation_name: Option<String>,
    pub automation_id: Option<String>,
    pub help_text: Option<String>,
    pub live_setting: Option<AutomationLiveSetting>,
    pub heading_level: Option<AutomationHeadingLevel>,
}

impl AccessibilityModifiers {
    pub fn empty() -> (m: Self)
        ensures
            m.automation_name is None,
            m.automation_id is None,
            m.help_text is None,
            m.live_setting is None,
            m.heading_level is None,
    {
        AccessibilityModifiers {
            automation_name: None,
            automation_id: None,
            help_text: None,
            live_setting: None,
            heading_level: None,
        }
    }
}

/// Modifiers shared by all widgets.
pub struct Modifiers {
    pub accessibility: AccessibilityModifiers,
}

impl Modifiers {
    pub fn empty() -> (m: Self)
        ensures
            m.accessibility.automation_name is None,
            m.accessibility.automation_id is None,
            m.accessibility.help_text is None,
            m.accessibility.live_setting is None,
            m.accessibility.heading_level is None,
    {
        Modifiers { accessibility: AccessibilityModifiers::empty() }
    }
}

/// The view of an optional string.
pub open spec fn opt_str_view(s: Option<String>) -> Option<Seq<char>> {
    match s {
        Some(t) => Some(t@),
        None => None,
    }
}

} // verus!
