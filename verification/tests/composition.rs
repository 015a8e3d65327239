use winui_reactor::books::BackendBooks;
use winui_reactor::containers::ControlKind;
use winui_reactor::dialog::{DialogBook, OpenStep};
use winui_reactor::events::UiEvent;
use winui_reactor::handlers::{HandlerBook, HandlerEntry};
use winui_reactor::kind_props::{KindDefault, KindProp, KindSet};
use winui_reactor::prop_route::{set_prop_route, Prop, PropRoute};
use winui_reactor::revokers::{dialog_cleanup_attached, RevokerBook};
use winui_reactor::rich_text::{run_setters, RichTextInline, RichTextRun, RunSetter};
use winui_reactor::scroll_intent::ViewerSlot;
use winui_reactor::universal::{BaseDefault, BaseProp, BaseSet, ValueForm};
use winui_reactor::widget::Color;
use winui_reactor::backend::{ElevationBook, FlyoutBook, ResourceKeyBook, RichTextBook};

#[test]
fn property_routes_in_order() {
    assert_eq!(set_prop_route(Prop::Elevation, ValueForm::Number, None, false), PropRoute::SetElevation);
    assert_eq!(set_prop_route(Prop::Elevation, ValueForm::Unset, None, false), PropRoute::ClearElevation);
    assert_eq!(set_prop_route(Prop::Elevation, ValueForm::Flag, None, false), PropRoute::IgnoredElevation);
    assert_eq!(
        set_prop_route(Prop::Base(BaseProp::Width), ValueForm::Number, None, false),
        PropRoute::UnknownControl
    );
    assert_eq!(
        set_prop_route(Prop::Base(BaseProp::Width), ValueForm::Number, Some(ControlKind::Grid), true),
        PropRoute::Generated
    );
    assert_eq!(
        set_prop_route(Prop::Resources, ValueForm::Resources, Some(ControlKind::Grid), false),
        PropRoute::Resources
    );
    assert_eq!(
        set_prop_route(Prop::Base(BaseProp::Width), ValueForm::Number, Some(ControlKind::ContentDialog), false),
        PropRoute::Shared { set: BaseSet::Given, records_dialog_size: true }
    );
    assert_eq!(
        set_prop_route(Prop::Base(BaseProp::Width), ValueForm::Unset, Some(ControlKind::ContentDialog), false),
        PropRoute::Shared { set: BaseSet::Default(BaseDefault::AutoSize), records_dialog_size: false }
    );
    assert_eq!(
        set_prop_route(Prop::Base(BaseProp::GridRow), ValueForm::Unset, Some(ControlKind::Button), false),
        PropRoute::Kind(KindSet::Ignored)
    );
    assert_eq!(
        set_prop_route(Prop::Kind(KindProp::TickPlacement), ValueForm::Unset, Some(ControlKind::Slider), false),
        PropRoute::Kind(KindSet::Default(KindDefault::NoTicks))
    );
    assert_eq!(
        set_prop_route(Prop::Content, ValueForm::Text, Some(ControlKind::Button), false),
        PropRoute::ContentArms
    );
}

#[test]
fn dialog_cleanup_sits_beside_the_closed_handler() {
    let mut dialogs: DialogBook<f64> = DialogBook::new();
    let mut revokers = RevokerBook::new();
    revokers.attach(3, UiEvent::Closed, vec![40]);
    match dialogs.open_request(3) {
        OpenStep::Show { attach_closing, .. } => assert!(attach_closing),
        OpenStep::Ignored => panic!("a fresh dialog opens"),
    }
    dialog_cleanup_attached(&mut dialogs, &mut revokers, 3, 41);
    assert!(dialogs.state(3).unwrap().closing_attached);
    assert_eq!(revokers.detach(3, UiEvent::Closed), vec![40, 41]);
}

#[test]
fn hide_tokens_of_two_dialogs_never_collide() {
    let mut dialogs: DialogBook<f64> = DialogBook::new();
    let t1 = dialogs.close_request(1);
    let t2 = dialogs.close_request(2);
    assert_ne!(t1, t2);
    // Reopening dialog 2 leaves dialog 1's hide due.
    dialogs.open_request(2);
    assert!(dialogs.hide_due(t1));
    assert!(!dialogs.hide_due(t2));
}

fn entry(capture: bool, tokens: Vec<u64>) -> HandlerEntry {
    HandlerEntry { capture_on_press: capture, tokens }
}

#[test]
fn handler_book_replaces_and_releases() {
    let mut b = HandlerBook::new();
    let (prev, release) = b.replace(1, true, Some(entry(true, vec![1, 2])));
    assert!(prev.is_none() && !release);
    let (prev, release) = b.replace(1, true, Some(entry(false, vec![3])));
    assert_eq!(prev.unwrap().tokens, vec![1, 2]);
    assert!(release);
    let (prev, release) = b.replace(1, true, None);
    assert_eq!(prev.unwrap().tokens, vec![3]);
    assert!(!release);
    let (prev, _) = b.replace(1, true, None);
    assert!(prev.is_none());
    // A missing element loses its entry and gets none.
    b.replace(2, true, Some(entry(true, vec![5])));
    let (prev, release) = b.replace(2, false, Some(entry(false, vec![6])));
    assert_eq!(prev.unwrap().tokens, vec![5]);
    assert!(!release);
    assert!(b.replace(2, true, None).0.is_none());
    b.replace(4, true, Some(entry(true, vec![7])));
    assert!(b.destroy(4, true));
    assert!(!b.destroy(4, true));
}

#[test]
fn viewer_is_wired_once() {
    let mut v = ViewerSlot::new();
    assert!(!v.ensure_viewer(None, None, None));
    assert!(!v.ensure_viewer(Some(9), Some(1), None));
    assert!(v.viewer.is_none());
    assert!(v.ensure_viewer(Some(9), Some(1), Some(2)));
    assert_eq!(v.viewer, Some(9));
    assert_eq!(v.revokers, Some((1, 2)));
    assert!(v.ensure_viewer(Some(10), None, None));
    assert_eq!(v.viewer, Some(9));
}

#[test]
fn destroy_clears_every_book() {
    let mut books: BackendBooks<f64, f64> = BackendBooks {
        dialogs: DialogBook::new(),
        elevation: ElevationBook::new(),
        flyouts: FlyoutBook::new(),
        rich_text: RichTextBook::new(),
        resource_keys: ResourceKeyBook::new(),
        revokers: RevokerBook::new(),
        pointers: HandlerBook::new(),
        drags: HandlerBook::new(),
    };
    books.revokers.attach(5, UiEvent::Click, vec![1]);
    books.pointers.replace(5, true, Some(entry(true, vec![2])));
    books.flyouts.request_open(5, true, false);
    books.resource_keys.record(5, &vec!["K".to_string()]);
    books.revokers.attach(6, UiEvent::Click, vec![3]);
    assert!(books.destroy(5, true));
    assert!(books.revokers.detach(5, UiEvent::Click).is_empty());
    assert_eq!(books.revokers.detach(6, UiEvent::Click), vec![3]);
    assert_eq!(books.flyouts.consume(5), (None, None));
    assert!(books.resource_keys.stale_keys(5, &vec![]).is_empty());
    assert!(books.pointers.replace(5, true, None).0.is_none());
}

#[test]
fn run_setters_follow_the_style() {
    let mut r = RichTextRun::plain("x");
    r.is_bold = true;
    r.foreground = Some(Color::rgb(1, 2, 3));
    r.font_size = Some((-0.0f64).to_bits());
    let i = RichTextInline::Run(r);
    assert_eq!(
        run_setters(&i),
        vec![
            RunSetter::Text,
            RunSetter::FontWeight(700),
            RunSetter::Foreground(Color::rgb(1, 2, 3)),
            RunSetter::FontSize((-0.0f64).to_bits()),
        ]
    );
    assert_eq!(run_setters(&RichTextInline::LineBreak), vec![RunSetter::Text]);
    // A clone keeps the sign of a zero size.
    if let RichTextInline::Run(r) = i.clone() {
        assert_eq!(r.font_size, Some((-0.0f64).to_bits()));
    }
}
