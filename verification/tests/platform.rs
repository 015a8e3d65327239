use winui_reactor::containers::ControlKind;
use winui_reactor::platform::{
    accepted_operation, automation_values, available_formats, info_badge_value, map_placement,
    needs_drag_ui_override, style_target_type, style_variant_key, theme_style_xaml,
    tooltip_placement, DragOperation, PlacementMode, ThemedProp, TooltipPlacement,
};
use winui_reactor::widget::{AccessibilityModifiers, AutomationHeadingLevel, AutomationLiveSetting};

#[test]
fn button_style_variants() {
    assert_eq!(style_variant_key(0), None);
    assert_eq!(style_variant_key(1), Some("AccentButtonStyle"));
    assert_eq!(style_variant_key(2), Some("SubtleButtonStyle"));
    assert_eq!(style_variant_key(3), Some("TextBlockButtonStyle"));
    assert_eq!(style_variant_key(4), None);
}

#[test]
fn style_targets() {
    assert_eq!(style_target_type(ControlKind::Border), Some("Border"));
    assert_eq!(style_target_type(ControlKind::TextBlock), Some("TextBlock"));
    assert_eq!(style_target_type(ControlKind::Canvas), Some("Canvas"));
    assert_eq!(style_target_type(ControlKind::ListView), None);
}

#[test]
fn theme_style_document() {
    let bindings = vec![
        (ThemedProp::Background, "CardBackgroundFillColorDefaultBrush".to_string()),
        (ThemedProp::Other, "Ignored".to_string()),
        (ThemedProp::Foreground, "TextFillColorPrimaryBrush".to_string()),
    ];
    assert_eq!(
        theme_style_xaml("Border", &bindings).as_deref(),
        Some(
            "<Style xmlns='http://schemas.microsoft.com/winfx/2006/xaml/presentation' TargetType='Border'>\
<Setter Property='Background' Value='{ThemeResource CardBackgroundFillColorDefaultBrush}'/>\
<Setter Property='Foreground' Value='{ThemeResource TextFillColorPrimaryBrush}'/></Style>"
        )
    );
    assert_eq!(theme_style_xaml("Grid", &vec![(ThemedProp::Other, "x".to_string())]), None);
    assert_eq!(theme_style_xaml("Grid", &vec![]), None);
}

#[test]
fn drag_formats() {
    let f = available_formats(&vec![
        "Text".to_string(),
        "UniformResourceLocatorW".to_string(),
        "Unknown".to_string(),
    ]);
    assert!(f.text && f.uri && f.web_link);
    assert!(!f.html && !f.rtf && !f.bitmap && !f.storage_items && !f.application_link);
    let g = available_formats(&vec![
        "HTML Format".to_string(),
        "Rich Text Format".to_string(),
        "Bitmap".to_string(),
        "Shell IDList Array".to_string(),
        "ApplicationLink".to_string(),
    ]);
    assert!(g.html && g.rtf && g.bitmap && g.storage_items && g.application_link);
    assert!(!g.text && !g.uri);
}

#[test]
fn drag_operations() {
    assert_eq!(accepted_operation(DragOperation::Refuse), 0);
    assert_eq!(accepted_operation(DragOperation::Copy), 1);
    assert_eq!(accepted_operation(DragOperation::Move), 2);
    assert_eq!(accepted_operation(DragOperation::Link), 4);
    assert!(!needs_drag_ui_override(&None, None, None));
    assert!(needs_drag_ui_override(&Some("Copy here".to_string()), None, None));
    assert!(needs_drag_ui_override(&None, Some(false), None));
    assert!(needs_drag_ui_override(&None, None, Some(true)));
}

#[test]
fn tooltip_placements() {
    assert_eq!(map_placement(TooltipPlacement::Mouse), PlacementMode::Mouse);
    assert_eq!(map_placement(TooltipPlacement::Left), PlacementMode::Left);
    assert_eq!(tooltip_placement(None), PlacementMode::Top);
    assert_eq!(tooltip_placement(Some(TooltipPlacement::Bottom)), PlacementMode::Bottom);
}

#[test]
fn accessibility_defaults() {
    let v = automation_values(&AccessibilityModifiers::empty());
    assert_eq!(v.name, "");
    assert_eq!(v.automation_id, "");
    assert_eq!(v.help_text, "");
    assert_eq!(v.live_setting, AutomationLiveSetting(0));
    assert_eq!(v.heading_level, AutomationHeadingLevel(0));
    let mut a = AccessibilityModifiers::empty();
    a.automation_name = Some("Send".to_string());
    a.live_setting = Some(AutomationLiveSetting(2));
    a.heading_level = Some(AutomationHeadingLevel(3));
    let v = automation_values(&a);
    assert_eq!(v.name, "Send");
    assert_eq!(v.live_setting, AutomationLiveSetting(2));
    assert_eq!(v.heading_level, AutomationHeadingLevel(3));
}

#[test]
fn info_badge_values() {
    assert_eq!(info_badge_value(-5), -1);
    assert_eq!(info_badge_value(0), 0);
    assert_eq!(info_badge_value(12), 12);
}
