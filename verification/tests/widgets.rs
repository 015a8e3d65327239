use winui_reactor::flyout::FlyoutDef;
use winui_reactor::number_box::{NumberBox, NumberBoxKnob};
use winui_reactor::scroll_viewer::{scroll_viewer, ScrollBarVisibility, ScrollViewer};
use winui_reactor::widget::{Element, FlyoutPlacementMode, TextBlock};

#[test]
fn flyout_forms() {
    let d = FlyoutDef::default();
    assert_eq!(d.text, "");
    assert!(!d.open && d.content.is_none() && d.on_closed.is_none());
    let t = FlyoutDef::text("Saved".to_string(), FlyoutPlacementMode(2));
    assert_eq!(t.text, "Saved");
    assert_eq!(t.placement, FlyoutPlacementMode(2));
    let e = FlyoutDef::element(Element::TextBlock(TextBlock::new("x")), FlyoutPlacementMode(1));
    assert_eq!(e.text, "");
    assert_eq!(e.content.as_deref(), Some(&Element::TextBlock(TextBlock::new("x"))));
}

#[test]
fn scroll_viewer_defaults_and_builders() {
    let v: ScrollViewer<f64> = scroll_viewer(Element::Empty);
    assert_eq!(v.horizontal_scroll_bar_visibility, ScrollBarVisibility(0));
    assert_eq!(v.vertical_scroll_bar_visibility, ScrollBarVisibility(1));
    assert!(v.zoom_mode.is_none() && v.scroll_to_bottom.is_none());
    let v = v
        .zoom_mode(1)
        .min_zoom_factor(0.5)
        .max_zoom_factor(4.0)
        .scroll_to_bottom(3)
        .vertical_scroll_bar_visibility(ScrollBarVisibility(3));
    assert_eq!(v.zoom_mode, Some(1));
    assert_eq!(v.min_zoom_factor, Some(0.5));
    assert_eq!(v.max_zoom_factor, Some(4.0));
    assert_eq!(v.scroll_to_bottom, Some(3));
    assert_eq!(v.vertical_scroll_bar_visibility, ScrollBarVisibility(3));
    assert_eq!(v.children(), &Element::Empty);
    let e: ScrollViewer<f64> = ScrollViewer::empty();
    assert_eq!(*e.child, Element::Empty);
}

#[test]
fn number_box_knobs_follow_builders() {
    let b = NumberBox::new(1.0, f64::MIN, f64::MAX);
    assert!(b.knob_bindings().is_empty());
    assert_eq!(b.minimum, f64::MIN);
    assert!(b.is_enabled);
    let b = b.range(0.0, 1.0).small_change(0.05).spin_button_placement_mode(1).header("Threshold").enabled(false);
    assert_eq!(b.minimum, 0.0);
    assert_eq!(b.maximum, 1.0);
    assert_eq!(b.header.as_deref(), Some("Threshold"));
    assert!(!b.is_enabled);
    assert_eq!(
        b.knob_bindings(),
        vec![NumberBoxKnob::SmallChange(0.05), NumberBoxKnob::SpinButtonPlacementMode(1)]
    );
    let b = b.large_change(0.25);
    assert_eq!(
        b.knob_bindings(),
        vec![
            NumberBoxKnob::SmallChange(0.05),
            NumberBoxKnob::LargeChange(0.25),
            NumberBoxKnob::SpinButtonPlacementMode(1)
        ]
    );
}
