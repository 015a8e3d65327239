use winui_reactor::kind_props::{kind_set, KindDefault, KindProp, KindSet};
use winui_reactor::universal::{base_default, base_set, BaseDefault, BaseProp, BaseSet, ValueForm};
use winui_reactor::button::ButtonContent;
use winui_reactor::containers::ControlKind;
use winui_reactor::events::{event_route, reported_color, reports_text_change, selection_report, EventRoute, UiEvent};
use winui_reactor::prop_receiver::{prop_receiver, Receiver, SharedProp};
use winui_reactor::slots::{slot_property, Slot, SlotProperty};
use winui_reactor::text_input::{text_write, TextWrite};
use winui_reactor::widget::Color;

#[test]
fn event_routes() {
    assert_eq!(
        event_route(UiEvent::NavigationPaneOpenChanged, ControlKind::NavigationView),
        Some(EventRoute::PropertyObserver)
    );
    assert_eq!(event_route(UiEvent::FlyoutClosed, ControlKind::Button), Some(EventRoute::ButtonFlyoutClosed));
    assert_eq!(event_route(UiEvent::Closed, ControlKind::ContentDialog), Some(EventRoute::NativeEvent));
    assert_eq!(event_route(UiEvent::Closed, ControlKind::Grid), Some(EventRoute::Ignored));
    assert_eq!(
        event_route(UiEvent::QuerySubmitted, ControlKind::NavigationView),
        Some(EventRoute::EmbeddedSearchBox)
    );
    assert_eq!(event_route(UiEvent::QuerySubmitted, ControlKind::AutoSuggestBox), Some(EventRoute::NativeEvent));
    assert_eq!(event_route(UiEvent::ItemClicked, ControlKind::MenuBar), Some(EventRoute::MenuBarItems));
    assert_eq!(event_route(UiEvent::ItemClicked, ControlKind::DropDownButton), Some(EventRoute::MenuItemRegistry));
    assert_eq!(
        event_route(UiEvent::CommandBarFlyoutClick, ControlKind::Button),
        Some(EventRoute::CommandBarFlyoutRegistry)
    );
    assert_eq!(event_route(UiEvent::Click, ControlKind::CommandBar), Some(EventRoute::CommandBarCommands));
    assert_eq!(event_route(UiEvent::SelectionChanged, ControlKind::Slider), None);
    assert_eq!(event_route(UiEvent::ColorChanged, ControlKind::Button), None);
}

#[test]
fn selection_reports_per_kind() {
    assert_eq!(selection_report(ControlKind::TabView, Some(2)), Some(2));
    assert_eq!(selection_report(ControlKind::TabView, Some(-1)), None);
    assert_eq!(selection_report(ControlKind::Pivot, None), None);
    assert_eq!(selection_report(ControlKind::ComboBox, Some(-1)), Some(-1));
    assert_eq!(selection_report(ControlKind::ComboBox, None), Some(-1));
    assert_eq!(selection_report(ControlKind::ListBox, Some(-1)), Some(-1));
    assert_eq!(selection_report(ControlKind::ListBox, None), None);
    assert_eq!(selection_report(ControlKind::Grid, Some(1)), None);
}

#[test]
fn text_changes_and_colors() {
    assert!(reports_text_change(ControlKind::AutoSuggestBox, true));
    assert!(!reports_text_change(ControlKind::AutoSuggestBox, false));
    assert!(reports_text_change(ControlKind::NavigationView, false));
    assert!(reports_text_change(ControlKind::RichEditBox, false));
    assert!(!reports_text_change(ControlKind::TextBox, true));
    let c = Color { a: 10, r: 20, g: 30, b: 40 };
    assert_eq!(reported_color(Some(c)), c);
    assert_eq!(reported_color(None), Color { a: 255, r: 0, g: 0, b: 0 });
}

#[test]
fn button_icon_and_text() {
    let c: ButtonContent<u32, u32> = ButtonContent::Empty;
    let c = c.with_text("Save".to_string());
    assert_eq!(c, ButtonContent::Text("Save".to_string()));
    let c = c.with_icon(7);
    assert_eq!(c, ButtonContent::IconText(7, "Save".to_string()));
    let c = c.with_text("Save all".to_string());
    assert_eq!(c, ButtonContent::IconText(7, "Save all".to_string()));
    let c = c.with_icon(8);
    assert_eq!(c, ButtonContent::IconText(8, "Save all".to_string()));
    let c = c.without_icon();
    assert_eq!(c, ButtonContent::Text("Save all".to_string()));
    let c = c.without_icon();
    assert_eq!(c, ButtonContent::Text("Save all".to_string()));
}

#[test]
fn button_icon_alone_and_beside_elements() {
    let empty_text: ButtonContent<u32, u32> = ButtonContent::Text(String::new());
    assert_eq!(empty_text.with_icon(1), ButtonContent::Icon(1));
    let none: ButtonContent<u32, u32> = ButtonContent::Empty;
    let icon = none.with_icon(2);
    assert_eq!(icon, ButtonContent::Icon(2));
    assert_eq!(icon.without_icon(), ButtonContent::Empty);
    let el: ButtonContent<u32, u32> = ButtonContent::Element(9);
    let both = el.with_icon(3);
    assert_eq!(both, ButtonContent::IconElement(3, 9));
    // A new text replaces an icon beside another element entirely.
    assert_eq!(both.with_text("x".to_string()), ButtonContent::Text("x".to_string()));
    let el: ButtonContent<u32, u32> = ButtonContent::Element(9);
    assert_eq!(el.with_icon(3).without_icon(), ButtonContent::Element(9));
}

#[test]
fn text_writes() {
    let cur = Some("abc".to_string());
    assert_eq!(text_write(&cur, &"abc".to_string(), false), TextWrite::Skip);
    assert_eq!(text_write(&cur, &"abc".to_string(), true), TextWrite::Skip);
    assert_eq!(text_write(&cur, &"abd".to_string(), false), TextWrite::Write);
    assert_eq!(text_write(&cur, &"abd".to_string(), true), TextWrite::WriteUnlocked);
    assert_eq!(text_write(&None, &String::new(), false), TextWrite::Write);
}

#[test]
fn shared_prop_receivers() {
    assert_eq!(prop_receiver(SharedProp::Padding, ControlKind::Border, false, false), Receiver::Own);
    assert_eq!(prop_receiver(SharedProp::Padding, ControlKind::Grid, true, false), Receiver::GridPadding);
    assert_eq!(prop_receiver(SharedProp::Padding, ControlKind::Button, false, true), Receiver::Control);
    assert_eq!(prop_receiver(SharedProp::Background, ControlKind::Grid, true, false), Receiver::Panel);
    assert_eq!(prop_receiver(SharedProp::Background, ControlKind::Border, false, false), Receiver::Own);
    assert_eq!(prop_receiver(SharedProp::Foreground, ControlKind::RichTextBlock, false, false), Receiver::Own);
    assert_eq!(prop_receiver(SharedProp::FontWeight, ControlKind::RichTextBlock, false, false), Receiver::Unhandled);
    assert_eq!(prop_receiver(SharedProp::BorderBrush, ControlKind::Grid, true, false), Receiver::Unhandled);
}

#[test]
fn slot_properties() {
    assert_eq!(slot_property(Slot::Header, ControlKind::Expander), Some(SlotProperty::Header));
    assert_eq!(slot_property(Slot::Header, ControlKind::TitleBar), Some(SlotProperty::Content));
    assert_eq!(slot_property(Slot::Pane, ControlKind::TitleBar), Some(SlotProperty::RightHeader));
    assert_eq!(slot_property(Slot::Pane, ControlKind::NavigationView), Some(SlotProperty::PaneFooter));
    assert_eq!(slot_property(Slot::Pane, ControlKind::SplitView), Some(SlotProperty::Pane));
    assert_eq!(slot_property(Slot::Header, ControlKind::Grid), None);
}

#[test]
fn base_property_table() {
    assert_eq!(base_set(BaseProp::FontSize, ValueForm::Number), Some(BaseSet::Given));
    assert_eq!(base_set(BaseProp::FontSize, ValueForm::Unset), Some(BaseSet::Default(BaseDefault::FontSize14)));
    assert_eq!(base_set(BaseProp::FontWeight, ValueForm::Unset), Some(BaseSet::Default(BaseDefault::NormalWeight)));
    assert_eq!(base_set(BaseProp::Width, ValueForm::Unset), Some(BaseSet::Default(BaseDefault::AutoSize)));
    assert_eq!(base_set(BaseProp::MaxHeight, ValueForm::Unset), Some(BaseSet::Default(BaseDefault::Unbounded)));
    assert_eq!(base_set(BaseProp::Foreground, ValueForm::Gradient), Some(BaseSet::Given));
    assert_eq!(base_set(BaseProp::Background, ValueForm::Gradient), None);
    assert_eq!(base_set(BaseProp::IsEnabled, ValueForm::Flag), None);
    assert_eq!(base_set(BaseProp::IsEnabled, ValueForm::Unset), Some(BaseSet::Default(BaseDefault::On)));
    // Unsetting a layout attachment is left to the control's own table.
    assert_eq!(base_set(BaseProp::GridRow, ValueForm::Unset), None);
    assert_eq!(base_set(BaseProp::GridRow, ValueForm::Integer), Some(BaseSet::Given));
    assert_eq!(base_set(BaseProp::CanvasLeft, ValueForm::Integer), None);
    assert_eq!(base_default(BaseProp::Stroke), Some(BaseDefault::NoBrush));
    assert_eq!(base_default(BaseProp::AlignLeftWithPanel), None);
}

#[test]
fn slider_tick_properties_reset_to_platform_defaults() {
    assert_eq!(kind_set(KindProp::TickFrequency, ValueForm::Number, ControlKind::Slider), KindSet::Given);
    assert_eq!(
        kind_set(KindProp::TickFrequency, ValueForm::Unset, ControlKind::Slider),
        KindSet::Default(KindDefault::TickEveryOne)
    );
    assert_eq!(
        kind_set(KindProp::SnapsTo, ValueForm::Unset, ControlKind::Slider),
        KindSet::Default(KindDefault::SnapToStepValues)
    );
    assert_eq!(
        kind_set(KindProp::TickPlacement, ValueForm::Unset, ControlKind::Slider),
        KindSet::Default(KindDefault::NoTicks)
    );
    assert_eq!(kind_set(KindProp::Step, ValueForm::Unset, ControlKind::Slider), KindSet::Default(KindDefault::StepOne));
}

#[test]
fn kind_property_table() {
    assert_eq!(kind_set(KindProp::MaxLines, ValueForm::Unset, ControlKind::TextBlock), KindSet::Default(KindDefault::NoLineLimit));
    assert_eq!(kind_set(KindProp::MaxLines, ValueForm::Unset, ControlKind::RichTextBlock), KindSet::Ignored);
    assert_eq!(kind_set(KindProp::MaxLines, ValueForm::Integer, ControlKind::RichTextBlock), KindSet::Unhandled);
    assert_eq!(kind_set(KindProp::LineHeight, ValueForm::Unset, ControlKind::RichTextBlock), KindSet::Default(KindDefault::AutoLineHeight));
    assert_eq!(kind_set(KindProp::TextAlignment, ValueForm::Unset, ControlKind::TextBlock), KindSet::Default(KindDefault::AlignLeft));
    assert_eq!(kind_set(KindProp::Value, ValueForm::Unset, ControlKind::PasswordBox), KindSet::Default(KindDefault::EmptyText));
    assert_eq!(kind_set(KindProp::Value, ValueForm::Unset, ControlKind::TextBox), KindSet::Ignored);
    assert_eq!(kind_set(KindProp::BorderBrush, ValueForm::Unset, ControlKind::Grid), KindSet::Default(KindDefault::NoBrush));
    assert_eq!(kind_set(KindProp::CornerRadius, ValueForm::Unset, ControlKind::Border), KindSet::Default(KindDefault::SquareCorners));
    assert_eq!(kind_set(KindProp::Header, ValueForm::Unset, ControlKind::TabViewItem), KindSet::Ignored);
    assert_eq!(kind_set(KindProp::Header, ValueForm::Text, ControlKind::TabViewItem), KindSet::Given);
    assert_eq!(kind_set(KindProp::DisplayName, ValueForm::Text, ControlKind::PersonPicture), KindSet::Unhandled);
}
