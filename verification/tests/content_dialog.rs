use winui_reactor::content_dialog::{ContentDialog, ContentDialogResult};
use winui_reactor::dialog::{DialogBook, OpenStep};
use winui_reactor::widget::{Callback, ControlId, Element, TextBlock};

#[test]
fn new_dialog_enables_both_action_buttons() {
    let d = ContentDialog::new("Delete file?");
    assert_eq!(d.title.as_deref(), Some("Delete file?"));
    assert!(d.is_primary_button_enabled);
    assert!(d.is_secondary_button_enabled);
    assert!(!d.is_open);
    assert!(d.content.is_none());
    assert_eq!(d.primary_button_text, "");
}

#[test]
fn default_dialog_is_empty_and_disabled() {
    let d = ContentDialog::default();
    assert!(d.title.is_none());
    assert!(!d.is_primary_button_enabled);
    assert!(!d.is_secondary_button_enabled);
    assert_eq!(ContentDialogResult::default(), ContentDialogResult::Dismissed);
}

#[test]
fn builders_set_their_fields() {
    let d = ContentDialog::new("t")
        .content("body")
        .primary_button_text("Yes")
        .secondary_button_text("No")
        .close_button_text("Cancel")
        .is_primary_button_enabled(false)
        .is_secondary_button_enabled(false)
        .is_open(true)
        .on_closed(Callback::new(11));
    assert_eq!(d.content.as_deref(), Some("body"));
    assert_eq!(d.primary_button_text, "Yes");
    assert_eq!(d.secondary_button_text, "No");
    assert_eq!(d.close_button_text, "Cancel");
    assert!(!d.is_primary_button_enabled);
    assert!(!d.is_secondary_button_enabled);
    assert!(d.is_open);
    assert_eq!(d.on_closed.as_ref().map(|c| c.id), Some(11));
}

#[test]
fn element_content_clears_text_content() {
    let d = ContentDialog::new("t")
        .content("text")
        .content_element(Element::TextBlock(TextBlock::new("rich")));
    assert!(d.content.is_none());
    assert_eq!(d.content_slot(), Some(&Element::TextBlock(TextBlock::new("rich"))));
}

#[test]
fn result_codes_decode() {
    assert_eq!(ContentDialogResult::from_i32(1), ContentDialogResult::Primary);
    assert_eq!(ContentDialogResult::from_i32(2), ContentDialogResult::Secondary);
    assert_eq!(ContentDialogResult::from_i32(0), ContentDialogResult::Dismissed);
    assert_eq!(ContentDialogResult::from_i32(-7), ContentDialogResult::Dismissed);
}

#[test]
fn closed_event_reaches_the_handler_with_the_result() {
    let d = ContentDialog::new("t").on_closed(Callback::new(3));
    assert_eq!(d.closed_delivery(2), Some((3, ContentDialogResult::Secondary)));
    assert_eq!(ContentDialog::new("t").closed_delivery(1), None);
}

fn open_and_show(book: &mut DialogBook<f64>, id: u32) -> OpenStep<f64> {
    let step = book.open_request(id);
    if let OpenStep::Show { attach_closing: true, .. } = step {
        book.closing_attached(id);
    }
    if matches!(step, OpenStep::Show { .. }) {
        book.shown(id);
    }
    step
}

#[test]
fn first_open_attaches_the_clearing_handler_once() {
    let mut book: DialogBook<f64> = DialogBook::new();
    assert_eq!(
        open_and_show(&mut book, 1),
        OpenStep::Show { restore_size: None, restore_content: None, attach_closing: true }
    );
    let token = book.close_request(1);
    book.closed(1);
    assert!(book.hide_due(token));
    assert_eq!(
        open_and_show(&mut book, 1),
        OpenStep::Show { restore_size: None, restore_content: None, attach_closing: false }
    );
}

#[test]
fn reopen_during_close_animation_is_ignored() {
    let mut book: DialogBook<f64> = DialogBook::new();
    open_and_show(&mut book, 1);
    let token = book.close_request(1);
    assert!(book.state(1).unwrap().closing);
    assert_eq!(book.open_request(1), OpenStep::Ignored);
    // The scheduled hide still runs, once.
    assert!(book.hide_due(token));
    assert!(!book.hide_due(token));
    book.closed(1);
    let st = book.state(1).unwrap();
    assert!(!st.closing && !st.shown);
    assert!(matches!(book.open_request(1), OpenStep::Show { .. }));
}

#[test]
fn reopen_cancels_hide_of_a_dismissed_dialog() {
    let mut book: DialogBook<f64> = DialogBook::new();
    open_and_show(&mut book, 1);
    // Escape closed it: the platform reports Closed first.
    book.closed(1);
    // The application then turns is_open off.
    let token = book.close_request(1);
    assert!(!book.state(1).unwrap().closing);
    assert!(matches!(open_and_show(&mut book, 1), OpenStep::Show { .. }));
    assert!(!book.hide_due(token));
}

#[test]
fn reopen_restores_size_and_content() {
    let mut book: DialogBook<f64> = DialogBook::new();
    book.record_width(4, 480.0);
    book.set_content(4, Some(ControlId(9)));
    assert_eq!(
        book.open_request(4),
        OpenStep::Show { restore_size: None, restore_content: Some(ControlId(9)), attach_closing: true }
    );
    book.record_height(4, 320.0);
    assert_eq!(
        book.open_request(4),
        OpenStep::Show {
            restore_size: Some((480.0, 320.0)),
            restore_content: Some(ControlId(9)),
            attach_closing: true
        }
    );
    book.destroy(4);
    assert!(book.state(4).is_none());
}

#[test]
fn show_without_state_records_nothing() {
    let mut book: DialogBook<f64> = DialogBook::new();
    book.shown(2);
    assert!(book.state(2).is_none());
    let token = book.close_request(2);
    assert!(book.state(2).is_none());
    assert_eq!(token, 0);
    assert_eq!(book.close_request(2), 1);
}
