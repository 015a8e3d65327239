//! `ScrollViewer`: one child in a scrollable viewport, with optional native
//! zoom and a scroll-to-bottom request. Zoom factors are values of any
//! copyable type `F`.
use crate::widget::{Element, Modifiers};
use vstd::prelude::*;

verus! {

/// `ScrollBarVisibility` of the platform: 0 disabled, 1 auto, 2 hidden,
/// 3 visible.
#[derive(PartialEq, Eq, Structural, Clone, Copy, Debug)]
pub struct ScrollBarVisibility(pub i32);

impl ScrollBarVisibility {
    pub fn disabled() -> (v: Self)
        ensures
            v.0 == 0,
    {
        ScrollBarVisibility(0)
    }

    pub fn auto() -> (v: Self)
        ensures
            v.0 == 1,
    {
        ScrollBarVisibility(1)
    }
}

pub struct ScrollViewer<F> {
    pub key: Option<String>,
    pub modifiers: Modifiers,
    pub child: Box<Element>,
    pub horizontal_scroll_bar_visibility: ScrollBarVisibility,
    pub vertical_scroll_bar_visibility: ScrollBarVisibility,
    /// Native zoom (`ScrollViewerZoomMode`: 0 disabled, 1 enabled).
    pub zoom_mode: Option<i32>,
    pub min_zoom_factor: Option<F>,
    pub max_zoom_factor: Option<F>,
    /// Scroll-to-bottom request: the application raises the generation to
    /// ask for a new scroll to the end.
    pub scroll_to_bottom: Option<i32>,
}

impl<F> ScrollViewer<F> {
    /// A viewer of `child`: no horizontal scroll bar, an automatic vertical
    /// one, no zoom settings and no scroll request.
    pub fn new(child: Element) -> (v: Self)
        ensures
            v.child == Box::new(child),
            v.key is None,
            v.horizontal_scroll_bar_visibility == ScrollBarVisibility(0),
            v.vertical_scroll_bar_visibility == ScrollBarVisibility(1),
            v.zoom_mode is None,
            v.min_zoom_factor is None,
            v.max_zoom_factor is None,
            v.scroll_to_bottom is None,
            v.modifiers.accessibility.automation_name is None,
            v.modifiers.accessibility.automation_id is None,
            v.modifiers.accessibility.help_text is None,
            v.modifiers.accessibility.live_setting is None,
            v.modifiers.accessibility.heading_level is None,
    {
        ScrollViewer {
            key: None,
            modifiers: Modifiers::empty(),
            child: Box::new(child),
            horizontal_scroll_bar_visibility: ScrollBarVisibility::disabled(),
            vertical_scroll_bar_visibility: ScrollBarVisibility::auto(),
            zoom_mode: None,
            min_zoom_factor: None,
            max_zoom_factor: None,
            scroll_to_bottom: None,
        }
    }

    /// A viewer with an empty child.
    pub fn empty() -> (v: Self)
        ensures
            v.child == Box::new(Element::Empty),
            v.key is None,
            v.horizontal_scroll_bar_visibility == ScrollBarVisibility(0),
            v.vertical_scroll_bar_visibility == ScrollBarVisibility(1),
            v.zoom_mode is None,
            v.min_zoom_factor is None,
            v.max_zoom_factor is None,
            v.scroll_to_bottom is None,
    {
        ScrollViewer::new(Element::Empty)
    }

    /// The single positional child.
    pub fn children(&self) -> (c: &Element)
        ensures
            *c == *self.child,
    {
        &self.child
    }

    pub fn horizontal_scroll_bar_visibility(self, v: ScrollBarVisibility) -> (s: Self)
        ensures
            s == (ScrollViewer { horizontal_scroll_bar_visibility: v, ..self }),
    {
        let mut s = self;
        s.horizontal_scroll_bar_visibility = v;
        s
    }

    pub fn vertical_scroll_bar_visibility(self, v: ScrollBarVisibility) -> (s: Self)
        ensures
            s == (ScrollViewer { vertical_scroll_bar_visibility: v, ..self }),
    {
        let mut s = self;
        s.vertical_scroll_bar_visibility = v;
        s
    }

    /// Enables (1) or disables (0) native zoom.
    pub fn zoom_mode(self, mode: i32) -> (s: Self)
        ensures
            s == (ScrollViewer { zoom_mode: Some(mode), ..self }),
    {
        let mut s = self;
        s.zoom_mode = Some(mode);
        s
    }

    /// Asks for a scroll to the bottom; raise `generation` for each new
    /// request.
    pub fn scroll_to_bottom(self, generation: i32) -> (s: Self)
        ensures
            s == (ScrollViewer { scroll_to_bottom: Some(generation), ..self }),
    {
        let mut s = self;
        s.scroll_to_bottom = Some(generation);
        s
    }

    pub fn min_zoom_factor(self, v: F) -> (s: Self)
        ensures
            s == (ScrollViewer { min_zoom_factor: Some(v), ..self }),
    {
        let mut s = self;
        s.min_zoom_factor = Some(v);
        s
    }

    pub fn max_zoom_factor(self, v: F) -> (s: Self)
        ensures
            s == (ScrollViewer { max_zoom_factor: Some(v), ..self }),
    {
        let mut s = self;
        s.max_zoom_factor = Some(v);
        s
    }
}

/// A scroll viewer of `child`.
pub fn scroll_viewer<F>(child: Element) -> (v: ScrollViewer<F>)
    ensures
        v.child == Box::new(child),
        v.horizontal_scroll_bar_visibility == ScrollBarVisibility(0),
        v.vertical_scroll_bar_visibility == ScrollBarVisibility(1),
        v.zoom_mode is None,
        v.min_zoom_factor is None,
        v.max_zoom_factor is None,
        v.scroll_to_bottom is None,
{
    ScrollViewer::new(child)
}

} // verus!
