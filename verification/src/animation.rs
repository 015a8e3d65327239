//! Which composition animations the backend builds for an element: the
//! easing curves, the implicit transitions and layout tweens, one-shot
//! property animations and enter/exit transitions.
//!
//! Durations are values of any copyable type `D`; animated values (floats)
//! stay with the caller, which learns here which tracks to build, on which
//! visual property and in which order.
use crate::handlers::lemma_contains_add;
use vstd::prelude::*;

verus! {

/// An easing of the animation language.
#[derive(PartialEq, Eq, Structural, Clone, Copy, Debug)]
pub enum Easing {
    Linear,
    EaseOut,
    EaseIn,
    EaseInOut,
}

/// The composition easing function of an easing. Cubic Bézier control
/// points `(x1, y1)`, `(x2, y2)` are given in hundredths.
#[derive(PartialEq, Eq, Structural, Clone, Copy, Debug)]
pub enum EasingCurve {
    Linear,
    CubicBezier { x1: u32, y1: u32, x2: u32, y2: u32 },
}

/// The standard CSS curves: ease-out `(0, 0)–(0.58, 1)`, ease-in
/// `(0.42, 0)–(1, 1)`, ease-in-out `(0.42, 0)–(0.58, 1)`.
pub open spec fn curve_of(e: Easing) -> EasingCurve {
    match e {
        Easing::Linear => EasingCurve::Linear,
        Easing::EaseOut => EasingCurve::CubicBezier { x1: 0, y1: 0, x2: 58, y2: 100 },
        Easing::EaseIn => EasingCurve::CubicBezier { x1: 42, y1: 0, x2: 100, y2: 100 },
        Easing::EaseInOut => EasingCurve::CubicBezier { x1: 42, y1: 0, x2: 58, y2: 100 },
    }
}

pub fn easing_curve(e: Easing) -> (c: EasingCurve)
    ensures
        c == curve_of(e),
{
    match e {
        Easing::Linear => EasingCurve::Linear,
        Easing::EaseOut => EasingCurve::CubicBezier { x1: 0, y1: 0, x2: 58, y2: 100 },
        Easing::EaseIn => EasingCurve::CubicBezier { x1: 42, y1: 0, x2: 100, y2: 100 },
        Easing::EaseInOut => EasingCurve::CubicBezier { x1: 42, y1: 0, x2: 58, y2: 100 },
    }
}

/// An animatable property of a composition visual.
#[derive(PartialEq, Eq, Structural, Clone, Copy, Debug)]
pub enum AnimTarget {
    Opacity,
    RotationAngleInDegrees,
    Scale,
    Offset,
    Size,
}

/// The property's name in composition expressions.
pub fn target_name(t: AnimTarget) -> (s: &'static str)
    ensures
        t == AnimTarget::Opacity ==> s@ == "Opacity"@,
        t == AnimTarget::RotationAngleInDegrees ==> s@ == "RotationAngleInDegrees"@,
        t == AnimTarget::Scale ==> s@ == "Scale"@,
        t == AnimTarget::Offset ==> s@ == "Offset"@,
        t == AnimTarget::Size ==> s@ == "Size"@,
{
    match t {
        AnimTarget::Opacity => "Opacity",
        AnimTarget::RotationAngleInDegrees => "RotationAngleInDegrees",
        AnimTarget::Scale => "Scale",
        AnimTarget::Offset => "Offset",
        AnimTarget::Size => "Size",
    }
}

/// The kind of key frame animation a track needs.
#[derive(PartialEq, Eq, Structural, Clone, Copy, Debug)]
pub enum TrackKind {
    Scalar,
    Vector2,
    Vector3,
}

/// An implicit animation: when `target` changes, tween to its final value
/// over `duration` with the ease-out curve.
#[derive(PartialEq, Eq, Structural, Clone, Copy, Debug)]
pub struct ImplicitTrack<D> {
    pub target: AnimTarget,
    pub kind: TrackKind,
    pub duration: D,
}

/// The implicit transitions of an element: the duration of each property
/// that animates on change.
#[derive(PartialEq, Eq, Structural, Clone, Copy, Debug)]
pub struct ImplicitTransitions<D> {
    pub opacity: Option<D>,
    pub rotation: Option<D>,
    pub scale: Option<D>,
    pub translation: Option<D>,
}

pub open spec fn transitions_empty<D>(t: ImplicitTransitions<D>) -> bool {
    t.opacity is None && t.rotation is None && t.scale is None && t.translation is None
}

pub open spec fn track_if<D>(d: Option<D>, target: AnimTarget, kind: TrackKind) -> Seq<ImplicitTrack<D>> {
    match d {
        Some(duration) => seq![ImplicitTrack { target, kind, duration }],
        None => Seq::empty(),
    }
}

/// The implicit animation collection of an element, `None` to clear it.
/// Translation animates the visual's `Offset`.
pub open spec fn implicit_tracks_of<D>(t: Option<ImplicitTransitions<D>>) -> Option<Seq<ImplicitTrack<D>>> {
    match t {
        None => None,
        Some(t) => if transitions_empty(t) {
            None
        } else {
            Some(
                track_if(t.opacity, AnimTarget::Opacity, TrackKind::Scalar)
                    + track_if(t.rotation, AnimTarget::RotationAngleInDegrees, TrackKind::Scalar)
                    + track_if(t.scale, AnimTarget::Scale, TrackKind::Vector3)
                    + track_if(t.translation, AnimTarget::Offset, TrackKind::Vector3),
            )
        },
    }
}

fn push_track<D: Copy>(v: &mut Vec<ImplicitTrack<D>>, d: Option<D>, target: AnimTarget, kind: TrackKind)
    ensures
        final(v)@ == old(v)@ + track_if(d, target, kind),
{
    match d {
        Some(duration) => v.push(ImplicitTrack { target, kind, duration }),
        None => {},
    }
    assert(final(v)@ =~= old(v)@ + track_if(d, target, kind));
}

pub fn implicit_transition_tracks<D: Copy>(t: Option<ImplicitTransitions<D>>) -> (r: Option<Vec<ImplicitTrack<D>>>)
    ensures
        match (r, implicit_tracks_of(t)) {
            (Some(v), Some(s)) => v@ == s,
            (None, None) => true,
            _ => false,
        },
{
    match t {
        None => None,
        Some(t) => {
            if t.opacity.is_none() && t.rotation.is_none() && t.scale.is_none()
                && t.translation.is_none() {
                None
            } else {
                let mut v: Vec<ImplicitTrack<D>> = Vec::new();
                push_track(&mut v, t.opacity, AnimTarget::Opacity, TrackKind::Scalar);
                push_track(&mut v, t.rotation, AnimTarget::RotationAngleInDegrees, TrackKind::Scalar);
                push_track(&mut v, t.scale, AnimTarget::Scale, TrackKind::Vector3);
                push_track(&mut v, t.translation, AnimTarget::Offset, TrackKind::Vector3);
                assert(v@ =~= Seq::<ImplicitTrack<D>>::empty() + track_if(t.opacity, AnimTarget::Opacity, TrackKind::Scalar)
                    + track_if(t.rotation, AnimTarget::RotationAngleInDegrees, TrackKind::Scalar)
                    + track_if(t.scale, AnimTarget::Scale, TrackKind::Vector3)
                    + track_if(t.translation, AnimTarget::Offset, TrackKind::Vector3));
                Some(v)
            }
        },
    }
}

/// A layout animation: tween the visual's offset and/or size whenever
/// layout moves or resizes it.
#[derive(PartialEq, Eq, Structural, Clone, Copy, Debug)]
pub struct LayoutAnimation<D> {
    pub duration: D,
    pub animate_offset: bool,
    pub animate_size: bool,
}

/// A layout animation owns the element's implicit collection: `None`
/// clears it, a configuration replaces it (possibly by an empty one).
/// `Size` is a two-component property and takes a `Vector2` animation.
pub open spec fn layout_tracks_of<D>(c: Option<LayoutAnimation<D>>) -> Option<Seq<ImplicitTrack<D>>> {
    match c {
        None => None,
        Some(c) => Some(
            (if c.animate_offset {
                seq![ImplicitTrack { target: AnimTarget::Offset, kind: TrackKind::Vector3, duration: c.duration }]
            } else {
                Seq::empty()
            }) + (if c.animate_size {
                seq![ImplicitTrack { target: AnimTarget::Size, kind: TrackKind::Vector2, duration: c.duration }]
            } else {
                Seq::empty()
            }),
        ),
    }
}

pub fn layout_animation_tracks<D: Copy>(c: Option<LayoutAnimation<D>>) -> (r: Option<Vec<ImplicitTrack<D>>>)
    ensures
        match (r, layout_tracks_of(c)) {
            (Some(v), Some(s)) => v@ == s,
            (None, None) => true,
            _ => false,
        },
{
    match c {
        None => None,
        Some(c) => {
            let mut v: Vec<ImplicitTrack<D>> = Vec::new();
            if c.animate_offset {
                v.push(ImplicitTrack { target: AnimTarget::Offset, kind: TrackKind::Vector3, duration: c.duration });
            }
            if c.animate_size {
                v.push(ImplicitTrack { target: AnimTarget::Size, kind: TrackKind::Vector2, duration: c.duration });
            }
            assert(v@ =~= layout_tracks_of(Some(c)).unwrap());
            Some(v)
        },
    }
}

/// The scale part of a one-shot animation, as the caller found it.
#[derive(PartialEq, Eq, Structural, Clone, Copy, Debug)]
pub enum ScaleRequest {
    /// No scale is animated.
    Absent,
    /// The visual already has the requested uniform scale.
    AlreadyCurrent,
    /// The visual's scale differs from the requested one.
    Changes,
}

/// The properties a one-shot animation starts, in order. An opacity
/// animation comes first; a scale that is already current ends the
/// animation there, so that no translation starts either.
pub open spec fn property_targets_of(has_opacity: bool, scale: ScaleRequest, has_translation: bool) -> Seq<AnimTarget> {
    let first: Seq<AnimTarget> = if has_opacity {
        seq![AnimTarget::Opacity]
    } else {
        Seq::empty()
    };
    match scale {
        ScaleRequest::AlreadyCurrent => first,
        _ => first + (if scale == ScaleRequest::Changes {
            seq![AnimTarget::Scale]
        } else {
            Seq::empty()
        }) + (if has_translation {
            seq![AnimTarget::Offset]
        } else {
            Seq::empty()
        }),
    }
}

pub fn property_animation_targets(has_opacity: bool, scale: ScaleRequest, has_translation: bool) -> (r: Vec<AnimTarget>)
    ensures
        r@ == property_targets_of(has_opacity, scale, has_translation),
{
    let mut v: Vec<AnimTarget> = Vec::new();
    if has_opacity {
        v.push(AnimTarget::Opacity);
    }
    match scale {
        ScaleRequest::AlreadyCurrent => {
            assert(v@ =~= property_targets_of(has_opacity, scale, has_translation));
            return v;
        },
        ScaleRequest::Changes => v.push(AnimTarget::Scale),
        ScaleRequest::Absent => {},
    }
    if has_translation {
        v.push(AnimTarget::Offset);
    }
    assert(v@ =~= property_targets_of(has_opacity, scale, has_translation));
    v
}

/// One track of an enter or exit transition. Every track ends at its
/// resting value (the requested opacity and scale, a zero offset); an
/// enter track also has a key frame at the start (opacity and scale from
/// zero, the offset from the requested translation).
#[derive(PartialEq, Eq, Structural, Clone, Copy, Debug)]
pub struct TransitionTrack {
    pub target: AnimTarget,
    pub keyframe_at_start: bool,
}

/// The tracks of an enter (`is_enter`) or exit transition, or `None` when
/// nothing is built: a transition without opacity and without scale builds
/// nothing, whatever its translation.
pub open spec fn transition_tracks_of(has_opacity: bool, has_scale: bool, has_translation: bool, is_enter: bool) -> Option<Seq<TransitionTrack>> {
    if !has_opacity && !has_scale {
        None
    } else {
        Some(
            (if has_opacity {
                seq![TransitionTrack { target: AnimTarget::Opacity, keyframe_at_start: is_enter }]
            } else {
                Seq::empty()
            }) + (if has_scale {
                seq![TransitionTrack { target: AnimTarget::Scale, keyframe_at_start: is_enter }]
            } else {
                Seq::empty()
            }) + (if has_translation {
                seq![TransitionTrack { target: AnimTarget::Offset, keyframe_at_start: is_enter }]
            } else {
                Seq::empty()
            }),
        )
    }
}

pub fn element_transition_tracks(has_opacity: bool, has_scale: bool, has_translation: bool, is_enter: bool) -> (r: Option<Vec<TransitionTrack>>)
    ensures
        match (r, transition_tracks_of(has_opacity, has_scale, has_translation, is_enter)) {
            (Some(v), Some(s)) => v@ == s,
            (None, None) => true,
            _ => false,
        },
{
    if !has_opacity && !has_scale {
        return None;
    }
    let mut v: Vec<TransitionTrack> = Vec::new();
    if has_opacity {
        v.push(TransitionTrack { target: AnimTarget::Opacity, keyframe_at_start: is_enter });
    }
    if has_scale {
        v.push(TransitionTrack { target: AnimTarget::Scale, keyframe_at_start: is_enter });
    }
    if has_translation {
        v.push(TransitionTrack { target: AnimTarget::Offset, keyframe_at_start: is_enter });
    }
    assert(v@ =~= transition_tracks_of(has_opacity, has_scale, has_translation, is_enter).unwrap());
    Some(v)
}

/// A transition is built exactly when it animates opacity or scale; it
/// then animates each requested property once, in every track with a
/// start key frame exactly when the element enters, and nothing else.
pub proof fn law_transition_tracks_follow_request(
    has_opacity: bool,
    has_scale: bool,
    has_translation: bool,
    is_enter: bool,
    t: AnimTarget,
    start: bool,
)
    ensures
        transition_tracks_of(has_opacity, has_scale, has_translation, is_enter) is None <==> (
        !has_opacity && !has_scale),
        transition_tracks_of(has_opacity, has_scale, has_translation, is_enter) matches Some(s) ==> (
        s.contains(TransitionTrack { target: t, keyframe_at_start: start }) == (start == is_enter
            && ((t == AnimTarget::Opacity && has_opacity) || (t == AnimTarget::Scale && has_scale) || (t
            == AnimTarget::Offset && has_translation)))),
{
    if has_opacity || has_scale {
        let x = TransitionTrack { target: t, keyframe_at_start: start };
        let a: Seq<TransitionTrack> = if has_opacity {
            seq![TransitionTrack { target: AnimTarget::Opacity, keyframe_at_start: is_enter }]
        } else {
            Seq::empty()
        };
        let b: Seq<TransitionTrack> = if has_scale {
            seq![TransitionTrack { target: AnimTarget::Scale, keyframe_at_start: is_enter }]
        } else {
            Seq::empty()
        };
        let c: Seq<TransitionTrack> = if has_translation {
            seq![TransitionTrack { target: AnimTarget::Offset, keyframe_at_start: is_enter }]
        } else {
            Seq::empty()
        };
        lemma_contains_add(a, b, x);
        lemma_contains_add(a + b, c, x);
        if a.len() == 1 && a[0] == x {
            assert(a.contains(x));
        }
        if b.len() == 1 && b[0] == x {
            assert(b.contains(x));
        }
        if c.len() == 1 && c[0] == x {
            assert(c.contains(x));
        }
    }
}

} // verus!
