//! How the backend attaches an event handler to a control when the
//! generated event table has no entry for the pair, and what the attached
//! handlers report.
use crate::containers::ControlKind;
use crate::widget::Color;
use vstd::prelude::*;

verus! {

/// The events attached by hand rather than through the generated table.
#[derive(PartialEq, Eq, Structural, Clone, Copy, Debug)]
pub enum UiEvent {
    NavigationPaneOpenChanged,
    NavigationDisplayModeChanged,
    FlyoutClosed,
    Closed,
    SelectionChanged,
    CloseRequested,
    QuerySubmitted,
    TextChanged,
    SuggestionChosen,
    ColorChanged,
    SelectedDateChanged,
    SelectedTimeChanged,
    DateChanged,
    ItemClicked,
    CommandBarFlyoutClick,
    ItemInvoked,
    Click,
}

/// How an event reaches its handler.
#[derive(PartialEq, Eq, Structural, Clone, Copy, Debug)]
pub enum EventRoute {
    /// A callback on a dependency property of the navigation view.
    PropertyObserver,
    /// The control's own platform event.
    NativeEvent,
    /// The event of the search box embedded in a navigation view, when it
    /// has one.
    EmbeddedSearchBox,
    /// The `Closed` event of the button's flyout, or, while the flyout
    /// does not exist yet, a handler kept until the flyout is mounted.
    ButtonFlyoutClosed,
    /// The handler is registered for the items of the menu bar, which are
    /// wired now.
    MenuBarItems,
    /// The handler is registered for the menu items that the control's
    /// flyout will mount.
    MenuItemRegistry,
    /// The handler is registered for the clicks of a command bar flyout.
    CommandBarFlyoutRegistry,
    /// The handler is registered and wired to the primary and secondary
    /// commands of the command bar.
    CommandBarCommands,
    /// Nothing is attached: the control has no such event.
    Ignored,
}

pub open spec fn route_of(event: UiEvent, kind: ControlKind) -> Option<EventRoute> {
    match (event, kind) {
        (UiEvent::NavigationPaneOpenChanged, ControlKind::NavigationView)
        | (UiEvent::NavigationDisplayModeChanged, ControlKind::NavigationView) => Some(
            EventRoute::PropertyObserver,
        ),
        (UiEvent::FlyoutClosed, ControlKind::Button) => Some(EventRoute::ButtonFlyoutClosed),
        (UiEvent::Closed, ControlKind::ContentDialog) => Some(EventRoute::NativeEvent),
        (UiEvent::SelectionChanged, ControlKind::TabView)
        | (UiEvent::CloseRequested, ControlKind::TabView)
        | (UiEvent::SelectionChanged, ControlKind::NavigationView)
        | (UiEvent::SelectionChanged, ControlKind::Pivot)
        | (UiEvent::SelectionChanged, ControlKind::ComboBox)
        | (UiEvent::ColorChanged, ControlKind::ColorPicker)
        | (UiEvent::SelectedDateChanged, ControlKind::DatePicker)
        | (UiEvent::SelectedTimeChanged, ControlKind::TimePicker)
        | (UiEvent::DateChanged, ControlKind::CalendarDatePicker)
        | (UiEvent::SelectionChanged, ControlKind::ListBox)
        | (UiEvent::TextChanged, ControlKind::AutoSuggestBox)
        | (UiEvent::QuerySubmitted, ControlKind::AutoSuggestBox)
        | (UiEvent::SuggestionChosen, ControlKind::AutoSuggestBox)
        | (UiEvent::ItemInvoked, ControlKind::TreeView)
        | (UiEvent::SelectionChanged, ControlKind::SelectorBar)
        | (UiEvent::TextChanged, ControlKind::RichEditBox) => Some(EventRoute::NativeEvent),
        (UiEvent::QuerySubmitted, ControlKind::NavigationView)
        | (UiEvent::TextChanged, ControlKind::NavigationView)
        | (UiEvent::SuggestionChosen, ControlKind::NavigationView) => Some(
            EventRoute::EmbeddedSearchBox,
        ),
        (UiEvent::ItemClicked, ControlKind::MenuBar) => Some(EventRoute::MenuBarItems),
        (UiEvent::ItemClicked, ControlKind::DropDownButton)
        | (UiEvent::ItemClicked, ControlKind::Button) => Some(EventRoute::MenuItemRegistry),
        (UiEvent::CommandBarFlyoutClick, ControlKind::Button) => Some(
            EventRoute::CommandBarFlyoutRegistry,
        ),
        (UiEvent::Click, ControlKind::CommandBar) => Some(EventRoute::CommandBarCommands),
        (UiEvent::Closed, _) => Some(EventRoute::Ignored),
        _ => None,
    }
}

/// How `event` is attached to a control of `kind`; `None` for a pair the
/// backend refuses (it reports a programming error).
pub fn event_route(event: UiEvent, kind: ControlKind) -> (r: Option<EventRoute>)
    ensures
        r == route_of(event, kind),
{
    match (event, kind) {
        (UiEvent::NavigationPaneOpenChanged, ControlKind::NavigationView)
        | (UiEvent::NavigationDisplayModeChanged, ControlKind::NavigationView) => Some(
            EventRoute::PropertyObserver,
        ),
        (UiEvent::FlyoutClosed, ControlKind::Button) => Some(EventRoute::ButtonFlyoutClosed),
        (UiEvent::Closed, ControlKind::ContentDialog) => Some(EventRoute::NativeEvent),
        (UiEvent::SelectionChanged, ControlKind::TabView)
        | (UiEvent::CloseRequested, ControlKind::TabView)
        | (UiEvent::SelectionChanged, ControlKind::NavigationView)
        | (UiEvent::SelectionChanged, ControlKind::Pivot)
        | (UiEvent::SelectionChanged, ControlKind::ComboBox)
        | (UiEvent::ColorChanged, ControlKind::ColorPicker)
        | (UiEvent::SelectedDateChanged, ControlKind::DatePicker)
        | (UiEvent::SelectedTimeChanged, ControlKind::TimePicker)
        | (UiEvent::DateChanged, ControlKind::CalendarDatePicker)
        | (UiEvent::SelectionChanged, ControlKind::ListBox)
        | (UiEvent::TextChanged, ControlKind::AutoSuggestBox)
        | (UiEvent::QuerySubmitted, ControlKind::AutoSuggestBox)
        | (UiEvent::SuggestionChosen, ControlKind::AutoSuggestBox)
        | (UiEvent::ItemInvoked, ControlKind::TreeView)
        | (UiEvent::SelectionChanged, ControlKind::SelectorBar)
        | (UiEvent::TextChanged, ControlKind::RichEditBox) => Some(EventRoute::NativeEvent),
        (UiEvent::QuerySubmitted, ControlKind::NavigationView)
        | (UiEvent::TextChanged, ControlKind::NavigationView)
        | (UiEvent::SuggestionChosen, ControlKind::NavigationView) => Some(
            EventRoute::EmbeddedSearchBox,
        ),
        (UiEvent::ItemClicked, ControlKind::MenuBar) => Some(EventRoute::MenuBarItems),
        (UiEvent::ItemClicked, ControlKind::DropDownButton)
        | (UiEvent::ItemClicked, ControlKind::Button) => Some(EventRoute::MenuItemRegistry),
        (UiEvent::CommandBarFlyoutClick, ControlKind::Button) => Some(
            EventRoute::CommandBarFlyoutRegistry,
        ),
        (UiEvent::Click, ControlKind::CommandBar) => Some(EventRoute::CommandBarCommands),
        (UiEvent::Closed, _) => Some(EventRoute::Ignored),
        _ => None,
    }
}

/// What a selection change of a `kind` control reports, given the index
/// read from the control (`None` when it could not be read): a tab view or
/// a pivot reports an index that was read and is not negative; a combo box
/// reports the index, `-1` when it could not be read; a list box reports
/// an index that was read. Other kinds report no index.
pub open spec fn selection_report_of(kind: ControlKind, read: Option<i32>) -> Option<i32> {
    match kind {
        ControlKind::TabView | ControlKind::Pivot => match read {
            Some(i) => if i >= 0 {
                Some(i)
            } else {
                None
            },
            None => None,
        },
        ControlKind::ComboBox => match read {
            Some(i) => Some(i),
            None => Some(-1i32),
        },
        ControlKind::ListBox => read,
        _ => None,
    }
}

pub fn selection_report(kind: ControlKind, read: Option<i32>) -> (r: Option<i32>)
    ensures
        r == selection_report_of(kind, read),
{
    match kind {
        ControlKind::TabView | ControlKind::Pivot => match read {
            Some(i) => if i >= 0 {
                Some(i)
            } else {
                None
            },
            None => None,
        },
        ControlKind::ComboBox => match read {
            Some(i) => Some(i),
            None => Some(-1),
        },
        ControlKind::ListBox => read,
        _ => None,
    }
}

/// Whether a text change of a `kind` control reaches the handler: an
/// auto-suggest box reports only changes the user typed, the search box of
/// a navigation view and a rich edit box report every change.
pub open spec fn text_change_reported(kind: ControlKind, user_input: bool) -> bool {
    kind == ControlKind::NavigationView || kind == ControlKind::RichEditBox || (kind
        == ControlKind::AutoSuggestBox && user_input)
}

pub fn reports_text_change(kind: ControlKind, user_input: bool) -> (r: bool)
    ensures
        r == text_change_reported(kind, user_input),
        r == (kind == ControlKind::NavigationView || kind == ControlKind::RichEditBox || (kind
            == ControlKind::AutoSuggestBox && user_input)),
{
    match kind {
        ControlKind::AutoSuggestBox => user_input,
        ControlKind::NavigationView | ControlKind::RichEditBox => true,
        _ => false,
    }
}

/// The color a color change reports: the new color, opaque black when it
/// could not be read.
pub fn reported_color(read: Option<Color>) -> (c: Color)
    ensures
        c == (match read {
            Some(c) => c,
            None => Color { a: 255, r: 0, g: 0, b: 0 },
        }),
{
    match read {
        Some(c) => c,
        None => Color { a: 255, r: 0, g: 0, b: 0 },
    }
}

/// A control whose selection changes are reported with an index has its
/// selection event attached, not refused.
pub proof fn law_reported_selections_are_attached(kind: ControlKind, i: i32)
    ensures
        selection_report_of(kind, Some(i)) is Some ==> route_of(UiEvent::SelectionChanged, kind)
            == Some(EventRoute::NativeEvent),
{
}

/// A control whose text changes are reported has its text event attached.
pub proof fn law_reported_text_changes_are_attached(kind: ControlKind, user_input: bool)
    ensures
        text_change_reported(kind, user_input) ==> route_of(UiEvent::TextChanged, kind) is Some,
{
}

/// The search events of a navigation view go to its embedded search box,
/// which raises them as an auto-suggest box does on its own.
pub proof fn law_search_box_events_match_auto_suggest(e: UiEvent)
    ensures
        route_of(e, ControlKind::NavigationView) == Some(EventRoute::EmbeddedSearchBox) ==> route_of(
            e,
            ControlKind::AutoSuggestBox,
        ) == Some(EventRoute::NativeEvent),
{
}

/// `Closed` is never refused: a control without it simply attaches
/// nothing.
pub proof fn law_closed_is_never_refused(kind: ControlKind)
    ensures
        route_of(UiEvent::Closed, kind) is Some,
        kind != ControlKind::ContentDialog ==> route_of(UiEvent::Closed, kind) == Some(
            EventRoute::Ignored,
        ),
{
}

/// Every event that a control raises itself (all but the navigation
/// view's property observers and the click events kept for items that
/// mount later) is attached natively on some control kind.
pub proof fn law_every_raised_event_is_attached(e: UiEvent)
    requires
        !(e == UiEvent::NavigationPaneOpenChanged || e == UiEvent::NavigationDisplayModeChanged
            || e == UiEvent::FlyoutClosed || e == UiEvent::ItemClicked || e
            == UiEvent::CommandBarFlyoutClick || e == UiEvent::Click),
    ensures
        exists|k: ControlKind| #[trigger] route_of(e, k) == Some(EventRoute::NativeEvent),
{
    let k = match e {
        UiEvent::Closed => ControlKind::ContentDialog,
        UiEvent::SelectionChanged => ControlKind::ComboBox,
        UiEvent::CloseRequested => ControlKind::TabView,
        UiEvent::QuerySubmitted => ControlKind::AutoSuggestBox,
        UiEvent::TextChanged => ControlKind::RichEditBox,
        UiEvent::SuggestionChosen => ControlKind::AutoSuggestBox,
        UiEvent::ColorChanged => ControlKind::ColorPicker,
        UiEvent::SelectedDateChanged => ControlKind::DatePicker,
        UiEvent::SelectedTimeChanged => ControlKind::TimePicker,
        UiEvent::DateChanged => ControlKind::CalendarDatePicker,
        UiEvent::ItemInvoked => ControlKind::TreeView,
        _ => ControlKind::Grid,
    };
    assert(route_of(e, k) == Some(EventRoute::NativeEvent));
}

/// Every index a combo box or list box reads is reported as read; a tab
/// view or pivot reports exactly the indices that select an item; a combo
/// box whose index cannot be read reports no selection (-1).
pub proof fn law_selection_reports(i: i32)
    ensures
        selection_report_of(ControlKind::ComboBox, Some(i)) == Some(i),
        selection_report_of(ControlKind::ListBox, Some(i)) == Some(i),
        selection_report_of(ControlKind::TabView, Some(i)) == selection_report_of(ControlKind::Pivot, Some(i)),
        (selection_report_of(ControlKind::TabView, Some(i)) is Some) == (i >= 0),
        selection_report_of(ControlKind::TabView, Some(i)) is Some ==> selection_report_of(
            ControlKind::TabView,
            Some(i),
        ) == Some(i),
        selection_report_of(ControlKind::ComboBox, None) == Some(-1i32),
{
}

} // verus!
