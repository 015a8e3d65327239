//! A flyout attached to a button.
//!
//! Two content forms: plain `text`, or an element subtree in `content`
//! that takes precedence over the text. `open` asks for the flyout to be
//! shown or hidden; `on_closed` fires on light dismiss or programmatic
//! hide, so the application can keep its own open state in sync.
use crate::widget::{Callback, Element, FlyoutPlacementMode};
use vstd::prelude::*;

verus! {

pub struct FlyoutDef {
    pub text: String,
    pub placement: FlyoutPlacementMode,
    /// Element content (takes precedence over `text`).
    pub content: Option<Box<Element>>,
    /// Programmatic open/close request.
    pub open: bool,
    /// Fired when the flyout closes (light dismiss, Esc, or hide).
    pub on_closed: Option<Callback<()>>,
}

impl Default for FlyoutDef {
    fn default() -> (f: Self)
        ensures
            f.text@ == Seq::<char>::empty(),
            f.placement == FlyoutPlacementMode(0),
            f.content is None,
            !f.open,
            f.on_closed is None,
    {
        FlyoutDef {
            text: String::new(),
            placement: FlyoutPlacementMode::top(),
            content: None,
            open: false,
            on_closed: None,
        }
    }
}

impl FlyoutDef {
    /// A text flyout.
    pub fn text(text: String, placement: FlyoutPlacementMode) -> (f: Self)
        ensures
            f.text == text,
            f.placement == placement,
            f.content is None,
            !f.open,
            f.on_closed is None,
    {
        FlyoutDef { text, placement, content: None, open: false, on_closed: None }
    }

    /// An element flyout; its text is empty.
    pub fn element(content: Element, placement: FlyoutPlacementMode) -> (f: Self)
        ensures
            f.text@ == Seq::<char>::empty(),
            f.placement == placement,
            f.content == Some(Box::new(content)),
            !f.open,
            f.on_closed is None,
    {
        FlyoutDef {
            text: String::new(),
            placement,
            content: Some(Box::new(content)),
            open: false,
            on_closed: None,
        }
    }
}

} // verus!
