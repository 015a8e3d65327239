//! The order in which a property set reaches its handler: elevation needs
//! no control; an unknown control is refused; then the generated property
//! table, the resource dictionary, the properties every element takes
//! (with a dialog's size recorded for its reopening), and last the
//! control kind's own table.
use crate::containers::ControlKind;
use crate::kind_props::{kind_set_of, kind_set, KindProp, KindSet};
use crate::universal::{base_set_of, base_set, BaseProp, BaseSet, ValueForm};
use vstd::prelude::*;

verus! {

/// A property of the widget tree.
#[derive(PartialEq, Eq, Structural, Clone, Copy, Debug)]
pub enum Prop {
    /// The elevation (depth of the shadow).
    Elevation,
    /// The resource dictionary.
    Resources,
    /// A property every element takes.
    Base(BaseProp),
    /// A property of particular control kinds.
    Kind(KindProp),
    /// A property that builds a collection or content on its control.
    Content,
}

/// Where a property set goes.
#[derive(PartialEq, Eq, Structural, Clone, Copy, Debug)]
pub enum PropRoute {
    /// The depth is recorded and applied if the control is inserted.
    SetElevation,
    /// The depth and its applied state are forgotten.
    ClearElevation,
    /// An elevation of another form is ignored.
    IgnoredElevation,
    /// The control does not exist: a programming error.
    UnknownControl,
    /// The generated property table handled it.
    Generated,
    /// The resource dictionary is rewritten.
    Resources,
    /// The shared setter handles it; `records_dialog_size` says a dialog's
    /// new width or height is recorded for its reopening.
    Shared { set: BaseSet, records_dialog_size: bool },
    /// The control kind's table decides.
    Kind(KindSet),
    /// The control's own arms that build collections or content decide.
    ContentArms,
}

/// The route of property `p` with a value of form `v` on a control of
/// `kind` (`None` when no such control exists); `generated` says whether
/// the generated property table handled the pair.
pub open spec fn prop_route_of(p: Prop, v: ValueForm, kind: Option<ControlKind>, generated: bool) -> PropRoute {
    if p == Prop::Elevation {
        if v == ValueForm::Number {
            PropRoute::SetElevation
        } else if v == ValueForm::Unset {
            PropRoute::ClearElevation
        } else {
            PropRoute::IgnoredElevation
        }
    } else if kind is None {
        PropRoute::UnknownControl
    } else if generated {
        PropRoute::Generated
    } else if p == Prop::Resources && v == ValueForm::Resources {
        PropRoute::Resources
    } else {
        match p {
            Prop::Base(b) => match base_set_of(b, v) {
                Some(set) => PropRoute::Shared {
                    set,
                    records_dialog_size: kind == Some(ControlKind::ContentDialog) && (b
                        == BaseProp::Width || b == BaseProp::Height) && v == ValueForm::Number,
                },
                None => if v == ValueForm::Unset {
                    PropRoute::Kind(KindSet::Ignored)
                } else {
                    PropRoute::Kind(KindSet::Unhandled)
                },
            },
            Prop::Kind(k) => PropRoute::Kind(kind_set_of(k, v, kind.unwrap())),
            Prop::Content => PropRoute::ContentArms,
            _ => if v == ValueForm::Unset {
                PropRoute::Kind(KindSet::Ignored)
            } else {
                PropRoute::Kind(KindSet::Unhandled)
            },
        }
    }
}

pub fn set_prop_route(p: Prop, v: ValueForm, kind: Option<ControlKind>, generated: bool) -> (r: PropRoute)
    ensures
        r == prop_route_of(p, v, kind, generated),
{
    if p == Prop::Elevation {
        if v == ValueForm::Number {
            PropRoute::SetElevation
        } else if v == ValueForm::Unset {
            PropRoute::ClearElevation
        } else {
            PropRoute::IgnoredElevation
        }
    } else {
        match kind {
            None => PropRoute::UnknownControl,
            Some(k) => {
                if generated {
                    PropRoute::Generated
                } else if p == Prop::Resources && v == ValueForm::Resources {
                    PropRoute::Resources
                } else {
                    match p {
                        Prop::Base(b) => match base_set(b, v) {
                            Some(set) => PropRoute::Shared {
                                set,
                                records_dialog_size: k == ControlKind::ContentDialog && (b
                                    == BaseProp::Width || b == BaseProp::Height) && v
                                    == ValueForm::Number,
                            },
                            None => if v == ValueForm::Unset {
                                PropRoute::Kind(KindSet::Ignored)
                            } else {
                                PropRoute::Kind(KindSet::Unhandled)
                            },
                        },
                        Prop::Kind(kp) => PropRoute::Kind(kind_set(kp, v, k)),
                        Prop::Content => PropRoute::ContentArms,
                        _ => if v == ValueForm::Unset {
                            PropRoute::Kind(KindSet::Ignored)
                        } else {
                            PropRoute::Kind(KindSet::Unhandled)
                        },
                    }
                }
            },
        }
    }
}

/// Width and height are routed alike, whatever the value, the control
/// and the generated table.
pub proof fn law_width_and_height_route_alike(v: ValueForm, kind: Option<ControlKind>, generated: bool)
    ensures
        prop_route_of(Prop::Base(BaseProp::Width), v, kind, generated) == prop_route_of(
            Prop::Base(BaseProp::Height),
            v,
            kind,
            generated,
        ),
{
}

/// A dialog's width or height set with a number by the shared setter is
/// recorded, so that reopening the dialog after its close animation
/// restores it; and nothing else is ever recorded as a dialog size.
pub proof fn law_dialog_sizes_are_recorded(p: Prop, v: ValueForm, kind: Option<ControlKind>, generated: bool)
    ensures
        (p == Prop::Base(BaseProp::Width) || p == Prop::Base(BaseProp::Height)) && v == ValueForm::Number
            && kind == Some(ControlKind::ContentDialog) && !generated ==> prop_route_of(p, v, kind, generated)
            == (PropRoute::Shared { set: BaseSet::Given, records_dialog_size: true }),
        (prop_route_of(p, v, kind, generated) matches PropRoute::Shared { records_dialog_size, .. }
            && records_dialog_size) ==> kind == Some(ControlKind::ContentDialog) && v == ValueForm::Number
            && (p == Prop::Base(BaseProp::Width) || p == Prop::Base(BaseProp::Height)),
{
}

/// Elevation never needs the control, and every other property on a
/// missing control is refused; the generated table, when it handles a
/// pair, comes before everything else.
pub proof fn law_route_order(p: Prop, v: ValueForm, kind: Option<ControlKind>, generated: bool)
    ensures
        p == Prop::Elevation ==> prop_route_of(p, v, kind, generated) == prop_route_of(p, v, None, false),
        p != Prop::Elevation && kind is None ==> prop_route_of(p, v, kind, generated)
            == PropRoute::UnknownControl,
        p != Prop::Elevation && kind is Some && generated ==> prop_route_of(p, v, kind, generated)
            == PropRoute::Generated,
{
}

} // verus!
