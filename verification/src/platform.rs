//! Values the backend hands the platform: button style keys, theme
//! resource styles, drag formats and operations, tooltip placement and
//! accessibility properties.
use crate::containers::ControlKind;
use crate::widget::{opt_str_view, AccessibilityModifiers, AutomationHeadingLevel, AutomationLiveSetting};
use vstd::prelude::*;

verus! {

// ---------------------------------------------------------------------------
// Button style variants
// ---------------------------------------------------------------------------
/// The application resource holding the button style of a variant: 1 is
/// the accent style, 2 the subtle one, 3 the text-block style, every other
/// value the default style (no resource).
pub fn style_variant_key(v: i32) -> (k: Option<&'static str>)
    ensures
        match k {
            Some(s) => (v == 1 && s@ == "AccentButtonStyle"@) || (v == 2 && s@ == "SubtleButtonStyle"@)
                || (v == 3 && s@ == "TextBlockButtonStyle"@),
            None => v != 1 && v != 2 && v != 3,
        },
{
    match v {
        1 => Some("AccentButtonStyle"),
        2 => Some("SubtleButtonStyle"),
        3 => Some("TextBlockButtonStyle"),
        _ => None,
    }
}

// ---------------------------------------------------------------------------
// Theme resource styles
// ---------------------------------------------------------------------------
/// The style target type of the kinds whose brushes can follow theme
/// resources.
pub fn style_target_type(kind: ControlKind) -> (t: Option<&'static str>)
    ensures
        match t {
            Some(s) => match kind {
                ControlKind::Border => s@ == "Border"@,
                ControlKind::StackPanel => s@ == "StackPanel"@,
                ControlKind::Grid => s@ == "Grid"@,
                ControlKind::Button => s@ == "Button"@,
                ControlKind::TextBox => s@ == "TextBox"@,
                ControlKind::TextBlock => s@ == "TextBlock"@,
                ControlKind::Canvas => s@ == "Canvas"@,
                _ => false,
            },
            None => !(kind == ControlKind::Border || kind == ControlKind::StackPanel || kind
                == ControlKind::Grid || kind == ControlKind::Button || kind == ControlKind::TextBox
                || kind == ControlKind::TextBlock || kind == ControlKind::Canvas),
        },
{
    match kind {
        ControlKind::Border => Some("Border"),
        ControlKind::StackPanel => Some("StackPanel"),
        ControlKind::Grid => Some("Grid"),
        ControlKind::Button => Some("Button"),
        ControlKind::TextBox => Some("TextBox"),
        ControlKind::TextBlock => Some("TextBlock"),
        ControlKind::Canvas => Some("Canvas"),
        _ => None,
    }
}

/// A property bound to a theme resource. Only brushes become style
/// setters; any other property is passed over.
#[derive(PartialEq, Eq, Structural, Clone, Copy, Debug)]
pub enum ThemedProp {
    Background,
    Foreground,
    BorderBrush,
    Other,
}

pub open spec fn themed_prop_name(p: ThemedProp) -> Seq<char> {
    match p {
        ThemedProp::Background => "Background"@,
        ThemedProp::Foreground => "Foreground"@,
        ThemedProp::BorderBrush => "BorderBrush"@,
        ThemedProp::Other => Seq::empty(),
    }
}

/// The setter text of one binding: empty for a property that is not a
/// brush.
pub open spec fn setter_text(p: ThemedProp, key: Seq<char>) -> Seq<char> {
    if p == ThemedProp::Other {
        Seq::empty()
    } else {
        "<Setter Property='"@ + themed_prop_name(p) + "' Value='{ThemeResource "@ + key + "}'/>"@
    }
}

/// The setters of a list of bindings, in order.
pub open spec fn setters_text(b: Seq<(ThemedProp, Seq<char>)>) -> Seq<char>
    decreases b.len(),
{
    if b.len() == 0 {
        Seq::empty()
    } else {
        setters_text(b.drop_last()) + setter_text(b.last().0, b.last().1)
    }
}

/// The style document for a target type and its setters.
pub open spec fn style_text(target: Seq<char>, setters: Seq<char>) -> Seq<char> {
    "<Style xmlns='http://schemas.microsoft.com/winfx/2006/xaml/presentation' TargetType='"@
        + target + "'>"@ + setters + "</Style>"@
}

pub open spec fn bindings_view(b: Seq<(ThemedProp, String)>) -> Seq<(ThemedProp, Seq<char>)> {
    b.map_values(|e: (ThemedProp, String)| (e.0, e.1@))
}

/// The style that makes a control's brushes follow theme resources:
/// `None` when no binding is a brush (the control's style is then
/// cleared).
pub fn theme_style_xaml(target: &str, bindings: &Vec<(ThemedProp, String)>) -> (x: Option<String>)
    ensures
        match x {
            Some(s) => setters_text(bindings_view(bindings@)).len() > 0 && s@ == style_text(
                target@,
                setters_text(bindings_view(bindings@)),
            ),
            None => setters_text(bindings_view(bindings@)).len() == 0,
        },
{
    let ghost bv = bindings_view(bindings@);
    let mut setters = String::new();
    let mut any = false;
    let n = bindings.len();
    for i in 0..n
        invariant
            n == bindings@.len(),
            bv == bindings_view(bindings@),
            setters@ == setters_text(bv.take(i as int)),
            any == (setters@.len() > 0),
    {
        let (prop, key) = &bindings[i];
        let name: Option<&str> = match prop {
            ThemedProp::Background => Some("Background"),
            ThemedProp::Foreground => Some("Foreground"),
            ThemedProp::BorderBrush => Some("BorderBrush"),
            ThemedProp::Other => None,
        };
        let ghost before = setters@;
        match name {
            Some(dp) => {
                any = true;
                setters.append("<Setter Property='");
                setters.append(dp);
                setters.append("' Value='{ThemeResource ");
                setters.append(key.as_str());
                setters.append("}'/>");
            },
            None => {},
        }
        proof {
            reveal_strlit("<Setter Property='");
            assert(bv.take(i + 1).drop_last() =~= bv.take(i as int));
            assert(bv.take(i + 1).last() == bv[i as int]);
            assert(bv[i as int] == (*prop, key@));
            if name is Some {
                assert(themed_prop_name(*prop) == name.unwrap()@);
                assert(setters@.len() > 0);
                assert(setters@ =~= before + setter_text(*prop, key@));
            } else {
                assert(setters@ =~= before + setter_text(*prop, key@));
            }
        }
    }
    assert(bv.take(n as int) =~= bv);
    if !any {
        None
    } else {
        let mut s = String::from_str(
            "<Style xmlns='http://schemas.microsoft.com/winfx/2006/xaml/presentation' TargetType='",
        );
        s.append(target);
        s.append("'>");
        s.append(setters.as_str());
        s.append("</Style>");
        Some(s)
    }
}


// ---------------------------------------------------------------------------
// Drag and drop
// ---------------------------------------------------------------------------
/// The data formats a drag offers.
#[derive(PartialEq, Eq, Structural, Clone, Copy, Debug)]
pub struct AvailableFormats {
    pub text: bool,
    pub html: bool,
    pub rtf: bool,
    pub bitmap: bool,
    pub storage_items: bool,
    pub uri: bool,
    pub web_link: bool,
    pub application_link: bool,
}

pub open spec fn offers(names: Seq<Seq<char>>, format: Seq<char>) -> bool {
    exists|i: int| 0 <= i < names.len() && names[i] == format
}

/// The formats named by a drag's list of format identifiers. A URL entry
/// offers both a uri and a web link; unknown identifiers are ignored.
pub open spec fn formats_of(names: Seq<Seq<char>>) -> AvailableFormats {
    AvailableFormats {
        text: offers(names, "Text"@),
        html: offers(names, "HTML Format"@),
        rtf: offers(names, "Rich Text Format"@),
        bitmap: offers(names, "Bitmap"@),
        storage_items: offers(names, "Shell IDList Array"@),
        uri: offers(names, "UniformResourceLocatorW"@),
        web_link: offers(names, "UniformResourceLocatorW"@),
        application_link: offers(names, "ApplicationLink"@),
    }
}

pub open spec fn names_view(names: Seq<String>) -> Seq<Seq<char>> {
    names.map_values(|n: String| n@)
}

/// Reads the formats a drag offers from its format identifiers.
pub fn available_formats(names: &Vec<String>) -> (f: AvailableFormats)
    ensures
        f == formats_of(names_view(names@)),
{
    let ghost nv = names_view(names@);
    let text = String::from_str("Text");
    let html = String::from_str("HTML Format");
    let rtf = String::from_str("Rich Text Format");
    let bitmap = String::from_str("Bitmap");
    let storage = String::from_str("Shell IDList Array");
    let url = String::from_str("UniformResourceLocatorW");
    let app_link = String::from_str("ApplicationLink");
    let mut f = AvailableFormats {
        text: false,
        html: false,
        rtf: false,
        bitmap: false,
        storage_items: false,
        uri: false,
        web_link: false,
        application_link: false,
    };
    let n = names.len();
    for i in 0..n
        invariant
            n == names@.len(),
            nv == names_view(names@),
            text@ == "Text"@,
            html@ == "HTML Format"@,
            rtf@ == "Rich Text Format"@,
            bitmap@ == "Bitmap"@,
            storage@ == "Shell IDList Array"@,
            url@ == "UniformResourceLocatorW"@,
            app_link@ == "ApplicationLink"@,
            f == formats_of(nv.take(i as int)),
    {
        let name = &names[i];
        let ghost seen = nv.take(i as int);
        let ghost seen2 = nv.take(i + 1);
        proof {
            assert(seen2 =~= seen.push(name@));
            assert forall|fmt: Seq<char>| #[trigger] offers(seen2, fmt) == (offers(seen, fmt) || name@
                == fmt) by {
                if offers(seen, fmt) {
                    let k = choose|k: int| 0 <= k < seen.len() && seen[k] == fmt;
                    assert(seen2[k] == fmt);
                }
                if name@ == fmt {
                    assert(seen2[i as int] == fmt);
                }
                if offers(seen2, fmt) {
                    let k = choose|k: int| 0 <= k < seen2.len() && seen2[k] == fmt;
                    if k < i {
                        assert(seen[k] == fmt);
                    }
                }
            }
        }
        if *name == text {
            f.text = true;
        } else if *name == html {
            f.html = true;
        } else if *name == rtf {
            f.rtf = true;
        } else if *name == bitmap {
            f.bitmap = true;
        } else if *name == storage {
            f.storage_items = true;
        } else if *name == url {
            f.uri = true;
            f.web_link = true;
        } else if *name == app_link {
            f.application_link = true;
        }
        proof {
            reveal_strlit("Text");
            reveal_strlit("HTML Format");
            reveal_strlit("Rich Text Format");
            reveal_strlit("Bitmap");
            reveal_strlit("Shell IDList Array");
            reveal_strlit("UniformResourceLocatorW");
            reveal_strlit("ApplicationLink");
            assert(("Text"@).len() == 4);
            assert(("HTML Format"@).len() == 11);
            assert(("Rich Text Format"@).len() == 16);
            assert(("Bitmap"@).len() == 6);
            assert(("Shell IDList Array"@).len() == 18);
            assert(("UniformResourceLocatorW"@).len() == 23);
            assert(("ApplicationLink"@).len() == 15);
            assert(f == formats_of(seen2));
        }
    }
    assert(nv.take(n as int) =~= nv);
    f
}

/// What a drag handler decided to do with the data.
#[derive(PartialEq, Eq, Structural, Clone, Copy, Debug)]
pub enum DragOperation {
    /// Refuse the drop.
    Refuse,
    Copy,
    Move,
    Link,
}

/// The platform's `DataPackageOperation` flag for an operation: 0 refuses,
/// 1 copies, 2 moves, 4 links.
pub fn accepted_operation(op: DragOperation) -> (v: u32)
    ensures
        v == (match op {
            DragOperation::Refuse => 0u32,
            DragOperation::Copy => 1u32,
            DragOperation::Move => 2u32,
            DragOperation::Link => 4u32,
        }),
{
    match op {
        DragOperation::Refuse => 0,
        DragOperation::Copy => 1,
        DragOperation::Move => 2,
        DragOperation::Link => 4,
    }
}

/// Whether the drag visuals must be overridden: the handler set a
/// caption, the glyph visibility or the content visibility.
pub fn needs_drag_ui_override(caption: &Option<String>, glyph_visible: Option<bool>, content_visible: Option<bool>) -> (r: bool)
    ensures
        r == (caption is Some || glyph_visible is Some || content_visible is Some),
{
    caption.is_some() || glyph_visible.is_some() || content_visible.is_some()
}

// ---------------------------------------------------------------------------
// Tooltips
// ---------------------------------------------------------------------------
/// Where a tooltip opens relative to its element.
#[derive(PartialEq, Eq, Structural, Clone, Copy, Debug)]
pub enum TooltipPlacement {
    Top,
    Bottom,
    Left,
    Right,
    Mouse,
}

/// The platform's `PlacementMode` for tooltips.
#[derive(PartialEq, Eq, Structural, Clone, Copy, Debug)]
pub enum PlacementMode {
    Bottom,
    Left,
    Mouse,
    Right,
    Top,
}

pub open spec fn placement_for(p: TooltipPlacement) -> PlacementMode {
    match p {
        TooltipPlacement::Top => PlacementMode::Top,
        TooltipPlacement::Bottom => PlacementMode::Bottom,
        TooltipPlacement::Left => PlacementMode::Left,
        TooltipPlacement::Right => PlacementMode::Right,
        TooltipPlacement::Mouse => PlacementMode::Mouse,
    }
}

pub fn map_placement(p: TooltipPlacement) -> (m: PlacementMode)
    ensures
        m == placement_for(p),
{
    match p {
        TooltipPlacement::Top => PlacementMode::Top,
        TooltipPlacement::Bottom => PlacementMode::Bottom,
        TooltipPlacement::Left => PlacementMode::Left,
        TooltipPlacement::Right => PlacementMode::Right,
        TooltipPlacement::Mouse => PlacementMode::Mouse,
    }
}

/// Every tooltip placement maps to a different platform placement: no two
/// placements are confused, and an explicit top placement is the same as
/// none.
pub proof fn law_placements_are_distinct(p: TooltipPlacement, q: TooltipPlacement)
    ensures
        p != q ==> placement_for(p) != placement_for(q),
        placement_for(TooltipPlacement::Top) == PlacementMode::Top,
{
}

/// The placement a tooltip gets: its own, else above the element.
pub fn tooltip_placement(p: Option<TooltipPlacement>) -> (m: PlacementMode)
    ensures
        m == (match p {
            Some(q) => placement_for(q),
            None => PlacementMode::Top,
        }),
{
    match p {
        Some(q) => map_placement(q),
        None => PlacementMode::Top,
    }
}

// ---------------------------------------------------------------------------
// Accessibility
// ---------------------------------------------------------------------------
/// The automation properties a control receives: absent texts become
/// empty, an absent live setting is off (0), an absent heading level is
/// none (0).
pub struct AutomationValues {
    pub name: String,
    pub automation_id: String,
    pub help_text: String,
    pub live_setting: AutomationLiveSetting,
    pub heading_level: AutomationHeadingLevel,
}

pub open spec fn text_or_empty(s: Option<Seq<char>>) -> Seq<char> {
    match s {
        Some(t) => t,
        None => Seq::empty(),
    }
}

fn string_or_empty(s: &Option<String>) -> (r: String)
    ensures
        r@ == text_or_empty(opt_str_view(*s)),
{
    match s {
        Some(t) => t.clone(),
        None => String::new(),
    }
}

pub fn automation_values(a: &AccessibilityModifiers) -> (v: AutomationValues)
    ensures
        v.name@ == text_or_empty(opt_str_view(a.automation_name)),
        v.automation_id@ == text_or_empty(opt_str_view(a.automation_id)),
        v.help_text@ == text_or_empty(opt_str_view(a.help_text)),
        v.live_setting == (match a.live_setting {
            Some(l) => l,
            None => AutomationLiveSetting(0),
        }),
        v.heading_level == (match a.heading_level {
            Some(h) => h,
            None => AutomationHeadingLevel(0),
        }),
{
    AutomationValues {
        name: string_or_empty(&a.automation_name),
        automation_id: string_or_empty(&a.automation_id),
        help_text: string_or_empty(&a.help_text),
        live_setting: match a.live_setting {
            Some(l) => l,
            None => AutomationLiveSetting(0),
        },
        heading_level: match a.heading_level {
            Some(h) => h,
            None => AutomationHeadingLevel(0),
        },
    }
}

/// The value an info badge shows: any negative count becomes -1 (no
/// number, a dot).
pub fn info_badge_value(v: i32) -> (r: i32)
    ensures
        r == (if v < 0 {
            -1i32
        } else {
            v
        }),
{
    if v < 0 {
        -1
    } else {
        v
    }
}

} // verus!
