//! The content of a button as its text and icon properties change: text
//! alone, an icon alone, or an icon beside the content in a horizontal
//! panel. Icons and other elements are handles of any type.
use vstd::prelude::*;

verus! {

/// What a button shows.
#[derive(PartialEq, Debug)]
pub enum ButtonContent<I, E> {
    /// No content.
    Empty,
    /// A text block.
    Text(String),
    /// An icon element alone.
    Icon(I),
    /// A horizontal panel: the icon, then a text block.
    IconText(I, String),
    /// A horizontal panel: the icon, then another element.
    IconElement(I, E),
    /// Any other content: neither a text block, nor an icon, nor a panel of
    /// two or more children.
    Element(E),
}

/// Setting the text: an icon beside a text block keeps the icon and
/// changes the text; any other content is replaced by a text block, an
/// icon beside another element included.
pub open spec fn text_set<I, E>(c: ButtonContent<I, E>, s: String) -> ButtonContent<I, E> {
    match c {
        ButtonContent::IconText(i, _) => ButtonContent::IconText(i, s),
        _ => ButtonContent::Text(s),
    }
}

/// Setting the icon: in a panel the icon is replaced and the other child
/// kept; no content, an icon, or an empty text becomes the icon alone; a
/// text or another element goes beside the icon.
pub open spec fn icon_set<I, E>(c: ButtonContent<I, E>, icon: I) -> ButtonContent<I, E> {
    match c {
        ButtonContent::IconText(_, t) => ButtonContent::IconText(icon, t),
        ButtonContent::IconElement(_, e) => ButtonContent::IconElement(icon, e),
        ButtonContent::Text(t) => if t@.len() == 0 {
            ButtonContent::Icon(icon)
        } else {
            ButtonContent::IconText(icon, t)
        },
        ButtonContent::Element(e) => ButtonContent::IconElement(icon, e),
        ButtonContent::Empty | ButtonContent::Icon(_) => ButtonContent::Icon(icon),
    }
}

/// Removing the icon: a panel gives way to its second child, an icon alone
/// to no content; other content stays.
pub open spec fn icon_unset<I, E>(c: ButtonContent<I, E>) -> ButtonContent<I, E> {
    match c {
        ButtonContent::IconText(_, t) => ButtonContent::Text(t),
        ButtonContent::IconElement(_, e) => ButtonContent::Element(e),
        ButtonContent::Icon(_) => ButtonContent::Empty,
        _ => c,
    }
}

impl<I, E> ButtonContent<I, E> {
    pub fn with_text(self, s: String) -> (r: Self)
        ensures
            r == text_set(self, s),
    {
        match self {
            ButtonContent::IconText(i, _) => ButtonContent::IconText(i, s),
            _ => ButtonContent::Text(s),
        }
    }

    pub fn with_icon(self, icon: I) -> (r: Self)
        ensures
            r == icon_set(self, icon),
    {
        match self {
            ButtonContent::IconText(_, t) => ButtonContent::IconText(icon, t),
            ButtonContent::IconElement(_, e) => ButtonContent::IconElement(icon, e),
            ButtonContent::Text(t) => if t.as_str().is_empty() {
                ButtonContent::Icon(icon)
            } else {
                ButtonContent::IconText(icon, t)
            },
            ButtonContent::Element(e) => ButtonContent::IconElement(icon, e),
            ButtonContent::Empty | ButtonContent::Icon(_) => ButtonContent::Icon(icon),
        }
    }

    pub fn without_icon(self) -> (r: Self)
        ensures
            r == icon_unset(self),
    {
        match self {
            ButtonContent::IconText(_, t) => ButtonContent::Text(t),
            ButtonContent::IconElement(_, e) => ButtonContent::Element(e),
            ButtonContent::Icon(_) => ButtonContent::Empty,
            other => other,
        }
    }
}

/// Adding an icon to a text and removing it again gives back the text.
pub proof fn law_icon_round_trip_keeps_text<I, E>(t: String, icon: I)
    requires
        t@.len() > 0,
    ensures
        icon_unset(icon_set(ButtonContent::<I, E>::Text(t), icon)) == ButtonContent::<I, E>::Text(t),
{
}

/// Adding an icon to other content and removing it again gives back that
/// content.
pub proof fn law_icon_round_trip_keeps_element<I, E>(e: E, icon: I)
    ensures
        icon_unset(icon_set(ButtonContent::<I, E>::Element(e), icon)) == ButtonContent::<I, E>::Element(e),
{
}

/// Changing the text of a button with an icon and a text keeps the icon;
/// changing its icon keeps the text.
pub proof fn law_text_and_icon_are_independent<I, E>(i: I, t: String, s: String, j: I)
    ensures
        text_set(ButtonContent::<I, E>::IconText(i, t), s) == ButtonContent::<I, E>::IconText(i, s),
        icon_set(ButtonContent::<I, E>::IconText(i, t), j) == ButtonContent::<I, E>::IconText(j, t),
{
}

/// Whatever the content, after an icon is set the button shows that icon,
/// and after it is removed the button shows no icon; removing twice is
/// removing once.
pub proof fn law_icon_set_and_unset<I, E>(c: ButtonContent<I, E>, icon: I)
    ensures
        shown_icon(icon_set(c, icon)) == Some(icon),
        shown_icon(icon_unset(c)) is None,
        icon_unset(icon_unset(c)) == icon_unset(c),
{
}

/// The icon a button shows, if any.
pub open spec fn shown_icon<I, E>(c: ButtonContent<I, E>) -> Option<I> {
    match c {
        ButtonContent::Icon(i) | ButtonContent::IconText(i, _) | ButtonContent::IconElement(i, _) => Some(i),
        _ => None,
    }
}

} // verus!
