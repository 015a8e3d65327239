use winui_reactor::animation::{
    easing_curve, element_transition_tracks, implicit_transition_tracks, layout_animation_tracks,
    property_animation_targets, target_name, AnimTarget, Easing, EasingCurve, ImplicitTrack,
    ImplicitTransitions, LayoutAnimation, ScaleRequest, TrackKind, TransitionTrack,
};

#[test]
fn easing_control_points() {
    assert_eq!(easing_curve(Easing::Linear), EasingCurve::Linear);
    assert_eq!(
        easing_curve(Easing::EaseOut),
        EasingCurve::CubicBezier { x1: 0, y1: 0, x2: 58, y2: 100 }
    );
    assert_eq!(
        easing_curve(Easing::EaseIn),
        EasingCurve::CubicBezier { x1: 42, y1: 0, x2: 100, y2: 100 }
    );
    assert_eq!(
        easing_curve(Easing::EaseInOut),
        EasingCurve::CubicBezier { x1: 42, y1: 0, x2: 58, y2: 100 }
    );
}

#[test]
fn target_names() {
    assert_eq!(target_name(AnimTarget::Opacity), "Opacity");
    assert_eq!(target_name(AnimTarget::RotationAngleInDegrees), "RotationAngleInDegrees");
    assert_eq!(target_name(AnimTarget::Scale), "Scale");
    assert_eq!(target_name(AnimTarget::Offset), "Offset");
    assert_eq!(target_name(AnimTarget::Size), "Size");
}

#[test]
fn implicit_transitions_in_order_and_translation_on_offset() {
    let t = ImplicitTransitions { opacity: Some(100u32), rotation: None, scale: Some(200), translation: Some(300) };
    let tracks = implicit_transition_tracks(Some(t)).unwrap();
    assert_eq!(
        tracks,
        vec![
            ImplicitTrack { target: AnimTarget::Opacity, kind: TrackKind::Scalar, duration: 100 },
            ImplicitTrack { target: AnimTarget::Scale, kind: TrackKind::Vector3, duration: 200 },
            ImplicitTrack { target: AnimTarget::Offset, kind: TrackKind::Vector3, duration: 300 },
        ]
    );
    let rot = ImplicitTransitions { opacity: None, rotation: Some(5u32), scale: None, translation: None };
    assert_eq!(
        implicit_transition_tracks(Some(rot)).unwrap(),
        vec![ImplicitTrack { target: AnimTarget::RotationAngleInDegrees, kind: TrackKind::Scalar, duration: 5 }]
    );
}

#[test]
fn empty_or_absent_transitions_clear_the_collection() {
    let none: Option<ImplicitTransitions<u32>> = None;
    assert!(implicit_transition_tracks(none).is_none());
    let empty = ImplicitTransitions::<u32> { opacity: None, rotation: None, scale: None, translation: None };
    assert!(implicit_transition_tracks(Some(empty)).is_none());
}

#[test]
fn layout_animation_owns_the_collection() {
    let none: Option<LayoutAnimation<u32>> = None;
    assert!(layout_animation_tracks(none).is_none());
    let both = LayoutAnimation { duration: 7u32, animate_offset: true, animate_size: true };
    assert_eq!(
        layout_animation_tracks(Some(both)).unwrap(),
        vec![
            ImplicitTrack { target: AnimTarget::Offset, kind: TrackKind::Vector3, duration: 7 },
            ImplicitTrack { target: AnimTarget::Size, kind: TrackKind::Vector2, duration: 7 },
        ]
    );
    // A configuration that animates nothing still replaces the collection.
    let neither = LayoutAnimation { duration: 7u32, animate_offset: false, animate_size: false };
    assert_eq!(layout_animation_tracks(Some(neither)), Some(vec![]));
}

#[test]
fn current_scale_stops_the_property_animation() {
    assert_eq!(
        property_animation_targets(true, ScaleRequest::Changes, true),
        vec![AnimTarget::Opacity, AnimTarget::Scale, AnimTarget::Offset]
    );
    assert_eq!(
        property_animation_targets(true, ScaleRequest::AlreadyCurrent, true),
        vec![AnimTarget::Opacity]
    );
    assert_eq!(property_animation_targets(false, ScaleRequest::Absent, true), vec![AnimTarget::Offset]);
    assert_eq!(property_animation_targets(false, ScaleRequest::Absent, false), vec![]);
}

#[test]
fn transitions_need_opacity_or_scale() {
    assert!(element_transition_tracks(false, false, true, true).is_none());
    assert_eq!(
        element_transition_tracks(true, false, true, true).unwrap(),
        vec![
            TransitionTrack { target: AnimTarget::Opacity, keyframe_at_start: true },
            TransitionTrack { target: AnimTarget::Offset, keyframe_at_start: true },
        ]
    );
    assert_eq!(
        element_transition_tracks(true, true, false, false).unwrap(),
        vec![
            TransitionTrack { target: AnimTarget::Opacity, keyframe_at_start: false },
            TransitionTrack { target: AnimTarget::Scale, keyframe_at_start: false },
        ]
    );
}
