//! `ContentDialog`: a modal popup with up to three buttons (primary,
//! secondary, close). It is not part of the visual tree: when `is_open`
//! turns true the backend shows it, and `on_closed` reports how the user
//! dismissed it.
//!
//! The content has two exclusive forms: plain text (`content`) or a mounted
//! element subtree (`content_element`).
use crate::widget::{opt_str_view, Callback, Element, Modifiers};
use vstd::prelude::*;

verus! {

/// How a dialog was dismissed. The platform reports `None` both for the
/// close button and for system dismissals (Escape, back gesture).
#[derive(PartialEq, Eq, Structural, Clone, Copy, Debug)]
pub enum ContentDialogResult {
    /// No action button: the close button or a system dismissal.
    Dismissed,
    Primary,
    Secondary,
}

/// The result named by a platform result code: 1 is the primary button,
/// 2 the secondary one, every other code none.
pub open spec fn dialog_result_of(v: i32) -> ContentDialogResult {
    if v == 1 {
        ContentDialogResult::Primary
    } else if v == 2 {
        ContentDialogResult::Secondary
    } else {
        ContentDialogResult::Dismissed
    }
}

impl Default for ContentDialogResult {
    fn default() -> (r: Self)
        ensures
            r == ContentDialogResult::Dismissed,
    {
        ContentDialogResult::Dismissed
    }
}

impl ContentDialogResult {
    /// Decodes the platform's result code.
    pub fn from_i32(v: i32) -> (r: Self)
        ensures
            r == dialog_result_of(v),
    {
        match v {
            1 => ContentDialogResult::Primary,
            2 => ContentDialogResult::Secondary,
            _ => ContentDialogResult::Dismissed,
        }
    }
}

pub struct ContentDialog {
    pub key: Option<String>,
    pub modifiers: Modifiers,
    pub title: Option<String>,
    pub content: Option<String>,
    /// Element content; exclusive with `content`.
    pub content_element: Option<Box<Element>>,
    pub primary_button_text: String,
    pub secondary_button_text: String,
    pub close_button_text: String,
    pub is_primary_button_enabled: bool,
    pub is_secondary_button_enabled: bool,
    pub is_open: bool,
    pub on_closed: Option<Callback<ContentDialogResult>>,
}

impl Default for ContentDialog {
    fn default() -> (d: Self)
        ensures
            d.key is None,
            d.title is None,
            d.content is None,
            d.content_element is None,
            d.primary_button_text@ == Seq::<char>::empty(),
            d.secondary_button_text@ == Seq::<char>::empty(),
            d.close_button_text@ == Seq::<char>::empty(),
            !d.is_primary_button_enabled,
            !d.is_secondary_button_enabled,
            !d.is_open,
            d.on_closed is None,
            d.modifiers.accessibility.automation_name is None,
            d.modifiers.accessibility.automation_id is None,
            d.modifiers.accessibility.help_text is None,
            d.modifiers.accessibility.live_setting is None,
            d.modifiers.accessibility.heading_level is None,
    {
        ContentDialog {
            key: None,
            modifiers: Modifiers::empty(),
            title: None,
            content: None,
            content_element: None,
            primary_button_text: String::new(),
            secondary_button_text: String::new(),
            close_button_text: String::new(),
            is_primary_button_enabled: false,
            is_secondary_button_enabled: false,
            is_open: false,
            on_closed: None,
        }
    }
}

impl ContentDialog {
    /// A dialog with a title and both action buttons enabled; everything
    /// else as in `default`.
    pub fn new(title: &str) -> (d: Self)
        ensures
            opt_str_view(d.title) == Some(title@),
            d.is_primary_button_enabled,
            d.is_secondary_button_enabled,
            d.key is None,
            d.content is None,
            d.content_element is None,
            d.primary_button_text@ == Seq::<char>::empty(),
            d.secondary_button_text@ == Seq::<char>::empty(),
            d.close_button_text@ == Seq::<char>::empty(),
            !d.is_open,
            d.on_closed is None,
            d.modifiers.accessibility.automation_name is None,
            d.modifiers.accessibility.automation_id is None,
            d.modifiers.accessibility.help_text is None,
            d.modifiers.accessibility.live_setting is None,
            d.modifiers.accessibility.heading_level is None,
    {
        let mut d = ContentDialog::default();
        d.title = Some(String::from_str(title));
        d.is_primary_button_enabled = true;
        d.is_secondary_button_enabled = true;
        d
    }

    /// Text content. The two forms are exclusive: the element content is
    /// cleared, so only one of them reaches the platform.
    pub fn content(self, s: &str) -> (d: Self)
        ensures
            opt_str_view(d.content) == Some(s@),
            d.content_element is None,
            d == (ContentDialog { content: d.content, content_element: None, ..self }),
    {
        let mut d = self;
        d.content = Some(String::from_str(s));
        d.content_element = None;
        d
    }

    /// Element content. The two forms are exclusive: the text content is
    /// cleared, so only one of them reaches the platform.
    pub fn content_element(self, el: Element) -> (d: Self)
        ensures
            d.content is None,
            d.content_element == Some(Box::new(el)),
            d == (ContentDialog { content: None, content_element: Some(Box::new(el)), ..self }),
    {
        let mut d = self;
        d.content = None;
        d.content_element = Some(Box::new(el));
        d
    }

    pub fn primary_button_text(self, s: &str) -> (d: Self)
        ensures
            d.primary_button_text@ == s@,
            d == (ContentDialog { primary_button_text: d.primary_button_text, ..self }),
    {
        let mut d = self;
        d.primary_button_text = String::from_str(s);
        d
    }

    pub fn secondary_button_text(self, s: &str) -> (d: Self)
        ensures
            d.secondary_button_text@ == s@,
            d == (ContentDialog { secondary_button_text: d.secondary_button_text, ..self }),
    {
        let mut d = self;
        d.secondary_button_text = String::from_str(s);
        d
    }

    pub fn close_button_text(self, s: &str) -> (d: Self)
        ensures
            d.close_button_text@ == s@,
            d == (ContentDialog { close_button_text: d.close_button_text, ..self }),
    {
        let mut d = self;
        d.close_button_text = String::from_str(s);
        d
    }

    pub fn is_primary_button_enabled(self, v: bool) -> (d: Self)
        ensures
            d == (ContentDialog { is_primary_button_enabled: v, ..self }),
    {
        let mut d = self;
        d.is_primary_button_enabled = v;
        d
    }

    pub fn is_secondary_button_enabled(self, v: bool) -> (d: Self)
        ensures
            d == (ContentDialog { is_secondary_button_enabled: v, ..self }),
    {
        let mut d = self;
        d.is_secondary_button_enabled = v;
        d
    }

    pub fn is_open(self, v: bool) -> (d: Self)
        ensures
            d == (ContentDialog { is_open: v, ..self }),
    {
        let mut d = self;
        d.is_open = v;
        d
    }

    pub fn on_closed(self, f: Callback<ContentDialogResult>) -> (d: Self)
        ensures
            d == (ContentDialog { on_closed: Some(f), ..self }),
    {
        let mut d = self;
        d.on_closed = Some(f);
        d
    }

    /// The element mounted into the content slot, if any.
    pub fn content_slot(&self) -> (r: Option<&Element>)
        ensures
            r == (match self.content_element {
                Some(b) => Some(&*b),
                None => None,
            }),
    {
        match &self.content_element {
            Some(b) => Some(&**b),
            None => None,
        }
    }

    /// The result the `on_closed` handler receives for a platform result
    /// code, together with the handler that receives it.
    pub fn closed_delivery(&self, code: i32) -> (r: Option<(u64, ContentDialogResult)>)
        ensures
            r == (match self.on_closed {
                Some(cb) => Some((cb.id, dialog_result_of(code))),
                None => None,
            }),
    {
        match &self.on_closed {
            Some(cb) => Some((cb.id, ContentDialogResult::from_i32(code))),
            None => None,
        }
    }
}

} // verus!
