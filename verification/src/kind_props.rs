//! The properties that belong to particular control kinds (text layout,
//! slider ticks, links, headers, borders and more): which control kind
//! takes which property and value, and the platform default an unset
//! property returns to. A property and value no kind takes, and that is
//! not unset, is reported as unhandled; an unset property that no kind
//! resets is left as it is.
use crate::containers::ControlKind;
use crate::universal::ValueForm;
use vstd::prelude::*;

verus! {

/// A property set on particular control kinds.
#[derive(PartialEq, Eq, Structural, Clone, Copy, Debug)]
pub enum KindProp {
    MaxLines,
    LineHeight,
    TextAlignment,
    TextTrimming,
    IsTextSelectionEnabled,
    TextWrapping,
    StyleVariant,
    Value,
    Step,
    TickFrequency,
    SnapsTo,
    TickPlacement,
    NavigateUri,
    IsClosable,
    DisplayName,
    Initials,
    CornerRadius,
    BorderBrush,
    BorderThickness,
    ImageSource,
    Header,
    ItemKey,
    SelectedTag,
    ItemHeader,
    DisplayMode,
    ColorValue,
    IsBackButtonVisible,
    /// Whether a navigation view shows a search box.
    ShowsSearchBox,
    Text,
    FlyoutPlacement,
    FlyoutOpen,
    Tall,
}

/// The platform default an unset property returns to.
#[derive(PartialEq, Eq, Structural, Clone, Copy, Debug)]
pub enum KindDefault {
    /// No limit on the number of lines (0).
    NoLineLimit,
    /// The line height the font gives (0).
    AutoLineHeight,
    /// Left alignment.
    AlignLeft,
    /// No trimming.
    NoTrimming,
    /// `false`.
    Off,
    /// A step of 1, both as the step frequency and the small change.
    StepOne,
    /// A tick every 1.
    TickEveryOne,
    /// Snapping to step values.
    SnapToStepValues,
    /// No tick marks.
    NoTicks,
    /// No value (no uri, image source, header, tag or selection).
    NoValue,
    /// The empty text.
    EmptyText,
    /// Square corners (radius 0).
    SquareCorners,
    /// No brush.
    NoBrush,
    /// A zero thickness.
    ZeroThickness,
}

/// What setting a property on a control does.
#[derive(PartialEq, Eq, Structural, Clone, Copy, Debug)]
pub enum KindSet {
    /// The given value is set.
    Given,
    /// The property returns to its default.
    Default(KindDefault),
    /// An unset property no kind resets: nothing happens.
    Ignored,
    /// A property and value the kind does not take: reported.
    Unhandled,
}

/// What setting property `p` with a value of form `v` does on a control
/// of `kind`.
pub open spec fn kind_set_of(p: KindProp, v: ValueForm, kind: ControlKind) -> KindSet {
    match (p, v, kind) {
        (KindProp::MaxLines, ValueForm::Integer, ControlKind::TextBlock) => KindSet::Given,
        (KindProp::MaxLines, ValueForm::Unset, ControlKind::TextBlock) => KindSet::Default(KindDefault::NoLineLimit),
        (KindProp::LineHeight, ValueForm::Number, ControlKind::TextBlock)
        | (KindProp::LineHeight, ValueForm::Number, ControlKind::RichTextBlock) => KindSet::Given,
        (KindProp::LineHeight, ValueForm::Unset, ControlKind::TextBlock)
        | (KindProp::LineHeight, ValueForm::Unset, ControlKind::RichTextBlock) => KindSet::Default(KindDefault::AutoLineHeight),
        (KindProp::TextAlignment, ValueForm::Integer, ControlKind::TextBlock) => KindSet::Given,
        (KindProp::TextAlignment, ValueForm::Unset, ControlKind::TextBlock) => KindSet::Default(KindDefault::AlignLeft),
        (KindProp::TextTrimming, ValueForm::Integer, ControlKind::TextBlock) => KindSet::Given,
        (KindProp::TextTrimming, ValueForm::Unset, ControlKind::TextBlock) => KindSet::Default(KindDefault::NoTrimming),
        (KindProp::IsTextSelectionEnabled, ValueForm::Flag, ControlKind::RichTextBlock) => KindSet::Given,
        (KindProp::IsTextSelectionEnabled, ValueForm::Unset, ControlKind::RichTextBlock) => KindSet::Default(KindDefault::Off),
        (KindProp::TextWrapping, ValueForm::Integer, ControlKind::RichTextBlock) => KindSet::Given,
        (KindProp::StyleVariant, ValueForm::Integer, ControlKind::Button) => KindSet::Given,
        (KindProp::Value, ValueForm::Text, ControlKind::TextBox)
        | (KindProp::Value, ValueForm::Text, ControlKind::PasswordBox)
        | (KindProp::Value, ValueForm::Integer, ControlKind::InfoBadge) => KindSet::Given,
        (KindProp::Value, ValueForm::Unset, ControlKind::PasswordBox) => KindSet::Default(KindDefault::EmptyText),
        (KindProp::Step, ValueForm::Number, ControlKind::Slider) => KindSet::Given,
        (KindProp::Step, ValueForm::Unset, ControlKind::Slider) => KindSet::Default(KindDefault::StepOne),
        (KindProp::TickFrequency, ValueForm::Number, ControlKind::Slider) => KindSet::Given,
        (KindProp::TickFrequency, ValueForm::Unset, ControlKind::Slider) => KindSet::Default(KindDefault::TickEveryOne),
        (KindProp::SnapsTo, ValueForm::Integer, ControlKind::Slider) => KindSet::Given,
        (KindProp::SnapsTo, ValueForm::Unset, ControlKind::Slider) => KindSet::Default(KindDefault::SnapToStepValues),
        (KindProp::TickPlacement, ValueForm::Integer, ControlKind::Slider) => KindSet::Given,
        (KindProp::TickPlacement, ValueForm::Unset, ControlKind::Slider) => KindSet::Default(KindDefault::NoTicks),
        (KindProp::NavigateUri, ValueForm::Text, ControlKind::HyperlinkButton) => KindSet::Given,
        (KindProp::NavigateUri, ValueForm::Unset, ControlKind::HyperlinkButton) => KindSet::Default(KindDefault::NoValue),
        (KindProp::IsClosable, ValueForm::Flag, ControlKind::TabViewItem) => KindSet::Given,
        (KindProp::DisplayName, ValueForm::Unset, ControlKind::PersonPicture)
        | (KindProp::Initials, ValueForm::Unset, ControlKind::PersonPicture) => KindSet::Default(KindDefault::EmptyText),
        (KindProp::CornerRadius, ValueForm::Number, ControlKind::Rectangle)
        | (KindProp::CornerRadius, ValueForm::Number, ControlKind::Border) => KindSet::Given,
        (KindProp::CornerRadius, ValueForm::Unset, ControlKind::Rectangle)
        | (KindProp::CornerRadius, ValueForm::Unset, ControlKind::Border) => KindSet::Default(KindDefault::SquareCorners),
        (KindProp::BorderBrush, ValueForm::Color, _) => KindSet::Given,
        (KindProp::BorderBrush, ValueForm::Unset, _) => KindSet::Default(KindDefault::NoBrush),
        (KindProp::BorderThickness, ValueForm::Thickness, _) => KindSet::Given,
        (KindProp::BorderThickness, ValueForm::Unset, _) => KindSet::Default(KindDefault::ZeroThickness),
        (KindProp::ImageSource, ValueForm::Image, ControlKind::Image) => KindSet::Given,
        (KindProp::ImageSource, ValueForm::Unset, ControlKind::Image) => KindSet::Default(KindDefault::NoValue),
        (KindProp::Header, ValueForm::Text, ControlKind::TabViewItem)
        | (KindProp::Header, ValueForm::Text, ControlKind::Expander)
        | (KindProp::Header, ValueForm::Text, ControlKind::RichEditBox) => KindSet::Given,
        (KindProp::Header, ValueForm::Unset, ControlKind::Expander)
        | (KindProp::Header, ValueForm::Unset, ControlKind::RichEditBox) => KindSet::Default(KindDefault::NoValue),
        (KindProp::ItemKey, ValueForm::Text, ControlKind::TabViewItem) => KindSet::Given,
        (KindProp::ItemKey, ValueForm::Unset, ControlKind::TabViewItem) => KindSet::Default(KindDefault::NoValue),
        (KindProp::SelectedTag, ValueForm::Text, ControlKind::NavigationView) => KindSet::Given,
        (KindProp::SelectedTag, ValueForm::Unset, ControlKind::NavigationView) => KindSet::Default(KindDefault::NoValue),
        (KindProp::ItemHeader, ValueForm::Text, ControlKind::PivotItem)
        | (KindProp::DisplayMode, ValueForm::Integer, ControlKind::SplitView)
        | (KindProp::ColorValue, ValueForm::Color, ControlKind::ColorPicker)
        | (KindProp::IsBackButtonVisible, ValueForm::Flag, ControlKind::NavigationView)
        | (KindProp::ShowsSearchBox, ValueForm::Flag, ControlKind::NavigationView)
        | (KindProp::Text, ValueForm::Text, ControlKind::AutoSuggestBox)
        | (KindProp::Text, ValueForm::Text, ControlKind::RichEditBox)
        | (KindProp::FlyoutPlacement, ValueForm::Integer, ControlKind::Button)
        | (KindProp::FlyoutOpen, ValueForm::Flag, ControlKind::Button)
        | (KindProp::Tall, ValueForm::Flag, ControlKind::TitleBar) => KindSet::Given,
        (_, ValueForm::Unset, _) => KindSet::Ignored,
        _ => KindSet::Unhandled,
    }
}

pub fn kind_set(p: KindProp, v: ValueForm, kind: ControlKind) -> (r: KindSet)
    ensures
        r == kind_set_of(p, v, kind),
{
    match (p, v, kind) {
        (KindProp::MaxLines, ValueForm::Integer, ControlKind::TextBlock) => KindSet::Given,
        (KindProp::MaxLines, ValueForm::Unset, ControlKind::TextBlock) => KindSet::Default(KindDefault::NoLineLimit),
        (KindProp::LineHeight, ValueForm::Number, ControlKind::TextBlock)
        | (KindProp::LineHeight, ValueForm::Number, ControlKind::RichTextBlock) => KindSet::Given,
        (KindProp::LineHeight, ValueForm::Unset, ControlKind::TextBlock)
        | (KindProp::LineHeight, ValueForm::Unset, ControlKind::RichTextBlock) => KindSet::Default(KindDefault::AutoLineHeight),
        (KindProp::TextAlignment, ValueForm::Integer, ControlKind::TextBlock) => KindSet::Given,
        (KindProp::TextAlignment, ValueForm::Unset, ControlKind::TextBlock) => KindSet::Default(KindDefault::AlignLeft),
        (KindProp::TextTrimming, ValueForm::Integer, ControlKind::TextBlock) => KindSet::Given,
        (KindProp::TextTrimming, ValueForm::Unset, ControlKind::TextBlock) => KindSet::Default(KindDefault::NoTrimming),
        (KindProp::IsTextSelectionEnabled, ValueForm::Flag, ControlKind::RichTextBlock) => KindSet::Given,
        (KindProp::IsTextSelectionEnabled, ValueForm::Unset, ControlKind::RichTextBlock) => KindSet::Default(KindDefault::Off),
        (KindProp::TextWrapping, ValueForm::Integer, ControlKind::RichTextBlock) => KindSet::Given,
        (KindProp::StyleVariant, ValueForm::Integer, ControlKind::Button) => KindSet::Given,
        (KindProp::Value, ValueForm::Text, ControlKind::TextBox)
        | (KindProp::Value, ValueForm::Text, ControlKind::PasswordBox)
        | (KindProp::Value, ValueForm::Integer, ControlKind::InfoBadge) => KindSet::Given,
        (KindProp::Value, ValueForm::Unset, ControlKind::PasswordBox) => KindSet::Default(KindDefault::EmptyText),
        (KindProp::Step, ValueForm::Number, ControlKind::Slider) => KindSet::Given,
        (KindProp::Step, ValueForm::Unset, ControlKind::Slider) => KindSet::Default(KindDefault::StepOne),
        (KindProp::TickFrequency, ValueForm::Number, ControlKind::Slider) => KindSet::Given,
        (KindProp::TickFrequency, ValueForm::Unset, ControlKind::Slider) => KindSet::Default(KindDefault::TickEveryOne),
        (KindProp::SnapsTo, ValueForm::Integer, ControlKind::Slider) => KindSet::Given,
        (KindProp::SnapsTo, ValueForm::Unset, ControlKind::Slider) => KindSet::Default(KindDefault::SnapToStepValues),
        (KindProp::TickPlacement, ValueForm::Integer, ControlKind::Slider) => KindSet::Given,
        (KindProp::TickPlacement, ValueForm::Unset, ControlKind::Slider) => KindSet::Default(KindDefault::NoTicks),
        (KindProp::NavigateUri, ValueForm::Text, ControlKind::HyperlinkButton) => KindSet::Given,
        (KindProp::NavigateUri, ValueForm::Unset, ControlKind::HyperlinkButton) => KindSet::Default(KindDefault::NoValue),
        (KindProp::IsClosable, ValueForm::Flag, ControlKind::TabViewItem) => KindSet::Given,
        (KindProp::DisplayName, ValueForm::Unset, ControlKind::PersonPicture)
        | (KindProp::Initials, ValueForm::Unset, ControlKind::PersonPicture) => KindSet::Default(KindDefault::EmptyText),
        (KindProp::CornerRadius, ValueForm::Number, ControlKind::Rectangle)
        | (KindProp::CornerRadius, ValueForm::Number, ControlKind::Border) => KindSet::Given,
        (KindProp::CornerRadius, ValueForm::Unset, ControlKind::Rectangle)
        | (KindProp::CornerRadius, ValueForm::Unset, ControlKind::Border) => KindSet::Default(KindDefault::SquareCorners),
        (KindProp::BorderBrush, ValueForm::Color, _) => KindSet::Given,
        (KindProp::BorderBrush, ValueForm::Unset, _) => KindSet::Default(KindDefault::NoBrush),
        (KindProp::BorderThickness, ValueForm::Thickness, _) => KindSet::Given,
        (KindProp::BorderThickness, ValueForm::Unset, _) => KindSet::Default(KindDefault::ZeroThickness),
        (KindProp::ImageSource, ValueForm::Image, ControlKind::Image) => KindSet::Given,
        (KindProp::ImageSource, ValueForm::Unset, ControlKind::Image) => KindSet::Default(KindDefault::NoValue),
        (KindProp::Header, ValueForm::Text, ControlKind::TabViewItem)
        | (KindProp::Header, ValueForm::Text, ControlKind::Expander)
        | (KindProp::Header, ValueForm::Text, ControlKind::RichEditBox) => KindSet::Given,
        (KindProp::Header, ValueForm::Unset, ControlKind::Expander)
        | (KindProp::Header, ValueForm::Unset, ControlKind::RichEditBox) => KindSet::Default(KindDefault::NoValue),
        (KindProp::ItemKey, ValueForm::Text, ControlKind::TabViewItem) => KindSet::Given,
        (KindProp::ItemKey, ValueForm::Unset, ControlKind::TabViewItem) => KindSet::Default(KindDefault::NoValue),
        (KindProp::SelectedTag, ValueForm::Text, ControlKind::NavigationView) => KindSet::Given,
        (KindProp::SelectedTag, ValueForm::Unset, ControlKind::NavigationView) => KindSet::Default(KindDefault::NoValue),
        (KindProp::ItemHeader, ValueForm::Text, ControlKind::PivotItem)
        | (KindProp::DisplayMode, ValueForm::Integer, ControlKind::SplitView)
        | (KindProp::ColorValue, ValueForm::Color, ControlKind::ColorPicker)
        | (KindProp::IsBackButtonVisible, ValueForm::Flag, ControlKind::NavigationView)
        | (KindProp::ShowsSearchBox, ValueForm::Flag, ControlKind::NavigationView)
        | (KindProp::Text, ValueForm::Text, ControlKind::AutoSuggestBox)
        | (KindProp::Text, ValueForm::Text, ControlKind::RichEditBox)
        | (KindProp::FlyoutPlacement, ValueForm::Integer, ControlKind::Button)
        | (KindProp::FlyoutOpen, ValueForm::Flag, ControlKind::Button)
        | (KindProp::Tall, ValueForm::Flag, ControlKind::TitleBar) => KindSet::Given,
        (_, ValueForm::Unset, _) => KindSet::Ignored,
        _ => KindSet::Unhandled,
    }
}

/// The slider's tick properties belong to sliders alone: on a slider each
/// is set with a value and returns to a platform default when unset; on
/// any other control an unset tick property is left alone and a value is
/// reported as unhandled.
pub proof fn law_slider_tick_properties(p: KindProp, v: ValueForm, kind: ControlKind)
    requires
        p == KindProp::Step || p == KindProp::TickFrequency || p == KindProp::SnapsTo || p
            == KindProp::TickPlacement,
    ensures
        kind_set_of(p, ValueForm::Unset, ControlKind::Slider) is Default,
        kind == ControlKind::Slider && v != ValueForm::Unset ==> (kind_set_of(p, v, kind) == KindSet::Given
            || kind_set_of(p, v, kind) == KindSet::Unhandled),
        kind != ControlKind::Slider ==> kind_set_of(p, v, kind) == (if v == ValueForm::Unset {
            KindSet::Ignored
        } else {
            KindSet::Unhandled
        }),
{
}

/// Border brushes and thicknesses are taken on every control, and reset on
/// every control.
pub proof fn law_borders_on_every_control(kind: ControlKind)
    ensures
        kind_set_of(KindProp::BorderBrush, ValueForm::Color, kind) == KindSet::Given,
        kind_set_of(KindProp::BorderBrush, ValueForm::Unset, kind) == KindSet::Default(KindDefault::NoBrush),
        kind_set_of(KindProp::BorderThickness, ValueForm::Thickness, kind) == KindSet::Given,
        kind_set_of(KindProp::BorderThickness, ValueForm::Unset, kind) == KindSet::Default(
            KindDefault::ZeroThickness,
        ),
{
}

} // verus!
