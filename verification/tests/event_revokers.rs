use winui_reactor::events::UiEvent;
use winui_reactor::revokers::RevokerBook;

#[test]
fn dialog_cleanup_keeps_the_closed_handler() {
    let mut b = RevokerBook::new();
    b.attach(4, UiEvent::Closed, vec![10]);
    b.add(4, UiEvent::Closed, vec![11]);
    assert_eq!(b.detach(4, UiEvent::Closed), vec![10, 11]);
    assert_eq!(b.detach(4, UiEvent::Closed), Vec::<u64>::new());
}

#[test]
fn attaching_again_replaces_and_empty_attach_keeps() {
    let mut b = RevokerBook::new();
    b.attach(1, UiEvent::Click, vec![1, 2]);
    b.attach(1, UiEvent::Click, vec![]);
    b.attach(1, UiEvent::TextChanged, vec![5]);
    b.attach(2, UiEvent::Click, vec![7]);
    assert_eq!(b.detach(1, UiEvent::Click), vec![1, 2]);
    b.attach(1, UiEvent::Click, vec![3]);
    b.attach(1, UiEvent::Click, vec![4]);
    assert_eq!(b.detach(1, UiEvent::Click), vec![4]);
    assert_eq!(b.detach(1, UiEvent::TextChanged), vec![5]);
    assert_eq!(b.detach(2, UiEvent::Click), vec![7]);
}

#[test]
fn destroy_detaches_everything_of_the_control() {
    let mut b = RevokerBook::new();
    b.attach(1, UiEvent::Click, vec![1]);
    b.add(1, UiEvent::FlyoutClosed, vec![2]);
    b.attach(2, UiEvent::Click, vec![3]);
    b.destroy(1);
    assert!(b.detach(1, UiEvent::Click).is_empty());
    assert!(b.detach(1, UiEvent::FlyoutClosed).is_empty());
    assert_eq!(b.detach(2, UiEvent::Click), vec![3]);
}
