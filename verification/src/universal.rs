//! The properties every element takes through its base interfaces (font,
//! size, alignment, layout attachments, brushes): which property and value
//! pairs the shared setter handles, and the platform default that an unset
//! property returns to.
use vstd::prelude::*;

verus! {

/// A property set through an element's base interfaces.
#[derive(PartialEq, Eq, Structural, Clone, Copy, Debug)]
pub enum BaseProp {
    FontSize,
    FontWeight,
    FontFamily,
    Margin,
    Width,
    Height,
    MinWidth,
    MaxWidth,
    MinHeight,
    MaxHeight,
    HorizontalAlignment,
    VerticalAlignment,
    Opacity,
    AllowDrop,
    IsEnabled,
    GridRow,
    GridColumn,
    GridRowSpan,
    GridColumnSpan,
    CanvasLeft,
    CanvasTop,
    CanvasZIndex,
    AlignLeftWithPanel,
    AlignRightWithPanel,
    AlignTopWithPanel,
    AlignBottomWithPanel,
    AlignHCenterWithPanel,
    AlignVCenterWithPanel,
    Padding,
    Background,
    Foreground,
    Fill,
    Stroke,
    StrokeThickness,
}

/// The form of a property value.
#[derive(PartialEq, Eq, Structural, Clone, Copy, Debug)]
pub enum ValueForm {
    Number,
    Weight,
    Text,
    Thickness,
    Integer,
    Flag,
    Color,
    Gradient,
    Image,
    Resources,
    Unset,
}

/// The value an unset property returns to.
#[derive(PartialEq, Eq, Structural, Clone, Copy, Debug)]
pub enum BaseDefault {
    /// A font size of 14 points.
    FontSize14,
    /// The normal font weight, 400.
    NormalWeight,
    /// The "Segoe UI" font family.
    SegoeUi,
    /// A zero thickness.
    ZeroThickness,
    /// An automatic size (not a number).
    AutoSize,
    /// Zero.
    Zero,
    /// No upper bound (infinity).
    Unbounded,
    /// Stretch alignment.
    Stretch,
    /// Full opacity, 1.
    FullyOpaque,
    /// `false`.
    Off,
    /// `true`.
    On,
    /// No brush.
    NoBrush,
}

/// What the shared setter does with a property and a value.
#[derive(PartialEq, Eq, Structural, Clone, Copy, Debug)]
pub enum BaseSet {
    /// Set the given value.
    Given,
    /// Set the platform default.
    Default(BaseDefault),
}

/// The form of value each property takes when it is set.
pub open spec fn accepted_form(p: BaseProp) -> ValueForm {
    match p {
        BaseProp::FontWeight => ValueForm::Weight,
        BaseProp::FontFamily => ValueForm::Text,
        BaseProp::Margin | BaseProp::Padding => ValueForm::Thickness,
        BaseProp::HorizontalAlignment | BaseProp::VerticalAlignment | BaseProp::GridRow
        | BaseProp::GridColumn | BaseProp::GridRowSpan | BaseProp::GridColumnSpan
        | BaseProp::CanvasZIndex => ValueForm::Integer,
        BaseProp::AllowDrop | BaseProp::IsEnabled | BaseProp::AlignLeftWithPanel
        | BaseProp::AlignRightWithPanel | BaseProp::AlignTopWithPanel | BaseProp::AlignBottomWithPanel
        | BaseProp::AlignHCenterWithPanel | BaseProp::AlignVCenterWithPanel => ValueForm::Flag,
        BaseProp::Background | BaseProp::Foreground | BaseProp::Fill | BaseProp::Stroke => ValueForm::Color,
        _ => ValueForm::Number,
    }
}

/// The default an unset property returns to; `None` for the properties
/// whose unsetting the shared setter leaves alone (the layout attachments).
pub open spec fn unset_default(p: BaseProp) -> Option<BaseDefault> {
    match p {
        BaseProp::FontSize => Some(BaseDefault::FontSize14),
        BaseProp::FontWeight => Some(BaseDefault::NormalWeight),
        BaseProp::FontFamily => Some(BaseDefault::SegoeUi),
        BaseProp::Margin | BaseProp::Padding => Some(BaseDefault::ZeroThickness),
        BaseProp::Width | BaseProp::Height => Some(BaseDefault::AutoSize),
        BaseProp::MinWidth | BaseProp::MinHeight | BaseProp::StrokeThickness => Some(BaseDefault::Zero),
        BaseProp::MaxWidth | BaseProp::MaxHeight => Some(BaseDefault::Unbounded),
        BaseProp::HorizontalAlignment | BaseProp::VerticalAlignment => Some(BaseDefault::Stretch),
        BaseProp::Opacity => Some(BaseDefault::FullyOpaque),
        BaseProp::AllowDrop => Some(BaseDefault::Off),
        BaseProp::IsEnabled => Some(BaseDefault::On),
        BaseProp::Background | BaseProp::Foreground | BaseProp::Fill | BaseProp::Stroke => Some(
            BaseDefault::NoBrush,
        ),
        _ => None,
    }
}

/// What the shared setter does with `p` and a value of form `v`; `None`
/// when it does not handle the pair and the control's own table decides.
/// A property takes its accepted form (a foreground also takes a
/// gradient), except that enabling is not set here, only reset; unset
/// properties return to their default.
pub open spec fn base_set_of(p: BaseProp, v: ValueForm) -> Option<BaseSet> {
    if v == ValueForm::Unset {
        match unset_default(p) {
            Some(d) => Some(BaseSet::Default(d)),
            None => None,
        }
    } else if p == BaseProp::IsEnabled {
        None
    } else if v == accepted_form(p) || (p == BaseProp::Foreground && v == ValueForm::Gradient) {
        Some(BaseSet::Given)
    } else {
        None
    }
}

fn form_of(p: BaseProp) -> (v: ValueForm)
    ensures
        v == accepted_form(p),
{
    match p {
        BaseProp::FontWeight => ValueForm::Weight,
        BaseProp::FontFamily => ValueForm::Text,
        BaseProp::Margin | BaseProp::Padding => ValueForm::Thickness,
        BaseProp::HorizontalAlignment | BaseProp::VerticalAlignment | BaseProp::GridRow
        | BaseProp::GridColumn | BaseProp::GridRowSpan | BaseProp::GridColumnSpan
        | BaseProp::CanvasZIndex => ValueForm::Integer,
        BaseProp::AllowDrop | BaseProp::IsEnabled | BaseProp::AlignLeftWithPanel
        | BaseProp::AlignRightWithPanel | BaseProp::AlignTopWithPanel | BaseProp::AlignBottomWithPanel
        | BaseProp::AlignHCenterWithPanel | BaseProp::AlignVCenterWithPanel => ValueForm::Flag,
        BaseProp::Background | BaseProp::Foreground | BaseProp::Fill | BaseProp::Stroke => ValueForm::Color,
        _ => ValueForm::Number,
    }
}

pub fn base_default(p: BaseProp) -> (d: Option<BaseDefault>)
    ensures
        d == unset_default(p),
{
    match p {
        BaseProp::FontSize => Some(BaseDefault::FontSize14),
        BaseProp::FontWeight => Some(BaseDefault::NormalWeight),
        BaseProp::FontFamily => Some(BaseDefault::SegoeUi),
        BaseProp::Margin | BaseProp::Padding => Some(BaseDefault::ZeroThickness),
        BaseProp::Width | BaseProp::Height => Some(BaseDefault::AutoSize),
        BaseProp::MinWidth | BaseProp::MinHeight | BaseProp::StrokeThickness => Some(BaseDefault::Zero),
        BaseProp::MaxWidth | BaseProp::MaxHeight => Some(BaseDefault::Unbounded),
        BaseProp::HorizontalAlignment | BaseProp::VerticalAlignment => Some(BaseDefault::Stretch),
        BaseProp::Opacity => Some(BaseDefault::FullyOpaque),
        BaseProp::AllowDrop => Some(BaseDefault::Off),
        BaseProp::IsEnabled => Some(BaseDefault::On),
        BaseProp::Background | BaseProp::Foreground | BaseProp::Fill | BaseProp::Stroke => Some(
            BaseDefault::NoBrush,
        ),
        _ => None,
    }
}

pub fn base_set(p: BaseProp, v: ValueForm) -> (r: Option<BaseSet>)
    ensures
        r == base_set_of(p, v),
{
    if v == ValueForm::Unset {
        match base_default(p) {
            Some(d) => Some(BaseSet::Default(d)),
            None => None,
        }
    } else if p == BaseProp::IsEnabled {
        None
    } else if v == form_of(p) || (p == BaseProp::Foreground && v == ValueForm::Gradient) {
        Some(BaseSet::Given)
    } else {
        None
    }
}

/// The two dimensions of a size are set alike, as are the two alignments
/// and the shape brushes; every property set with a value of its own form
/// is taken as given (enabling excepted, which is only reset here), and an
/// unset property returns to a default unless it is a layout attachment.
pub proof fn law_base_properties_are_consistent(v: ValueForm, p: BaseProp)
    ensures
        base_set_of(BaseProp::Width, v) == base_set_of(BaseProp::Height, v),
        base_set_of(BaseProp::MinWidth, v) == base_set_of(BaseProp::MinHeight, v),
        base_set_of(BaseProp::MaxWidth, v) == base_set_of(BaseProp::MaxHeight, v),
        base_set_of(BaseProp::HorizontalAlignment, v) == base_set_of(BaseProp::VerticalAlignment, v),
        base_set_of(BaseProp::Fill, v) == base_set_of(BaseProp::Stroke, v),
        base_set_of(BaseProp::Margin, v) == base_set_of(BaseProp::Padding, v),
        p != BaseProp::IsEnabled ==> base_set_of(p, accepted_form(p)) == Some(BaseSet::Given),
        base_set_of(p, v) == Some(BaseSet::Given) ==> v != ValueForm::Unset,
        (base_set_of(p, ValueForm::Unset) is None) == (p == BaseProp::GridRow || p == BaseProp::GridColumn
            || p == BaseProp::GridRowSpan || p == BaseProp::GridColumnSpan || p == BaseProp::CanvasLeft
            || p == BaseProp::CanvasTop || p == BaseProp::CanvasZIndex || p == BaseProp::AlignLeftWithPanel
            || p == BaseProp::AlignRightWithPanel || p == BaseProp::AlignTopWithPanel || p
            == BaseProp::AlignBottomWithPanel || p == BaseProp::AlignHCenterWithPanel || p
            == BaseProp::AlignVCenterWithPanel),
{
}

} // verus!
