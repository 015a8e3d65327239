//! `NumberBox`: a numeric input with a range, optional spin steps and a
//! spin button layout. Numbers are values of any copyable type `F`.
use crate::widget::{opt_str_view, Callback, Modifiers};
use vstd::prelude::*;

verus! {

pub struct NumberBox<F> {
    pub key: Option<String>,
    pub modifiers: Modifiers,
    pub value: F,
    pub minimum: F,
    pub maximum: F,
    pub on_value_changed: Option<Callback<F>>,
    pub header: Option<String>,
    pub is_enabled: bool,
    /// Spin step (the platform's `SmallChange`).
    pub small_change: Option<F>,
    /// Page step (the platform's `LargeChange`, PageUp/PageDown).
    pub large_change: Option<F>,
    /// Spin button layout: 0 hidden, 1 compact, 2 inline.
    pub spin_button_placement_mode: Option<i32>,
}

/// A property a number box sets beyond the generated ones, in the order
/// the box emits them.
#[derive(PartialEq, Eq, Structural, Clone, Copy, Debug)]
pub enum NumberBoxKnob<F> {
    SmallChange(F),
    LargeChange(F),
    SpinButtonPlacementMode(i32),
}

pub open spec fn knobs_of<F>(b: NumberBox<F>) -> Seq<NumberBoxKnob<F>> {
    (match b.small_change {
        Some(v) => seq![NumberBoxKnob::SmallChange(v)],
        None => Seq::empty(),
    }) + (match b.large_change {
        Some(v) => seq![NumberBoxKnob::LargeChange(v)],
        None => Seq::empty(),
    }) + (match b.spin_button_placement_mode {
        Some(v) => seq![NumberBoxKnob::SpinButtonPlacementMode(v)],
        None => Seq::empty(),
    })
}

impl<F: Copy> NumberBox<F> {
    /// A box showing `value`, enabled, with the range `lowest..=highest`
    /// (the widest range of the number type) and nothing else set.
    pub fn new(value: F, lowest: F, highest: F) -> (b: Self)
        ensures
            b.value == value,
            b.minimum == lowest,
            b.maximum == highest,
            b.is_enabled,
            b.key is None,
            b.on_value_changed is None,
            b.header is None,
            b.small_change is None,
            b.large_change is None,
            b.spin_button_placement_mode is None,
            b.modifiers.accessibility.automation_name is None,
            b.modifiers.accessibility.automation_id is None,
            b.modifiers.accessibility.help_text is None,
            b.modifiers.accessibility.live_setting is None,
            b.modifiers.accessibility.heading_level is None,
    {
        NumberBox {
            key: None,
            modifiers: Modifiers::empty(),
            value,
            minimum: lowest,
            maximum: highest,
            on_value_changed: None,
            header: None,
            is_enabled: true,
            small_change: None,
            large_change: None,
            spin_button_placement_mode: None,
        }
    }

    pub fn range(self, min: F, max: F) -> (b: Self)
        ensures
            b == (NumberBox { minimum: min, maximum: max, ..self }),
    {
        let mut b = self;
        b.minimum = min;
        b.maximum = max;
        b
    }

    pub fn on_value_changed(self, f: Callback<F>) -> (b: Self)
        ensures
            b == (NumberBox { on_value_changed: Some(f), ..self }),
    {
        let mut b = self;
        b.on_value_changed = Some(f);
        b
    }

    pub fn header(self, s: &str) -> (b: Self)
        ensures
            opt_str_view(b.header) == Some(s@),
            b == (NumberBox { header: b.header, ..self }),
    {
        let mut b = self;
        b.header = Some(String::from_str(s));
        b
    }

    pub fn enabled(self, enabled: bool) -> (b: Self)
        ensures
            b == (NumberBox { is_enabled: enabled, ..self }),
    {
        let mut b = self;
        b.is_enabled = enabled;
        b
    }

    pub fn small_change(self, v: F) -> (b: Self)
        ensures
            b == (NumberBox { small_change: Some(v), ..self }),
    {
        let mut b = self;
        b.small_change = Some(v);
        b
    }

    pub fn large_change(self, v: F) -> (b: Self)
        ensures
            b == (NumberBox { large_change: Some(v), ..self }),
    {
        let mut b = self;
        b.large_change = Some(v);
        b
    }

    /// Spin button layout: 0 hidden, 1 compact, 2 inline.
    pub fn spin_button_placement_mode(self, v: i32) -> (b: Self)
        ensures
            b == (NumberBox { spin_button_placement_mode: Some(v), ..self }),
    {
        let mut b = self;
        b.spin_button_placement_mode = Some(v);
        b
    }

    /// The spin properties the box sets: each one that is present, in the
    /// order small change, large change, spin button layout.
    pub fn knob_bindings(&self) -> (k: Vec<NumberBoxKnob<F>>)
        ensures
            k@ == knobs_of(*self),
    {
        let mut k: Vec<NumberBoxKnob<F>> = Vec::new();
        let ghost a = match self.small_change {
            Some(v) => seq![NumberBoxKnob::SmallChange(v)],
            None => Seq::<NumberBoxKnob<F>>::empty(),
        };
        let ghost b = match self.large_change {
            Some(v) => seq![NumberBoxKnob::LargeChange(v)],
            None => Seq::<NumberBoxKnob<F>>::empty(),
        };
        if let Some(v) = self.small_change {
            k.push(NumberBoxKnob::SmallChange(v));
        }
        assert(k@ =~= a);
        if let Some(v) = self.large_change {
            k.push(NumberBoxKnob::LargeChange(v));
        }
        assert(k@ =~= a + b);
        if let Some(v) = self.spin_button_placement_mode {
            k.push(NumberBoxKnob::SpinButtonPlacementMode(v));
        }
        assert(k@ =~= knobs_of(*self));
        k
    }
}

} // verus!
