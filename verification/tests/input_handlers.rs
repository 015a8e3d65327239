use winui_reactor::handlers::{
    drag_subscriptions, drop_reads, pointer_subscriptions, press_capture_succeeded,
    releases_captures_on_replace, DragEvent, DragHandlerSet, DropReads, PointerEvent,
    PointerHandlerSet,
};
use winui_reactor::platform::AvailableFormats;

fn no_pointer_handlers() -> PointerHandlerSet {
    PointerHandlerSet {
        tapped: false,
        right_tapped: false,
        pressed: false,
        released: false,
        moved: false,
        entered: false,
        exited: false,
        capture_lost: false,
        canceled: false,
        capture_on_press: false,
    }
}

#[test]
fn capture_subscribes_press_and_release() {
    let h = PointerHandlerSet { capture_on_press: true, ..no_pointer_handlers() };
    assert_eq!(pointer_subscriptions(Some(h)), vec![PointerEvent::Pressed, PointerEvent::Released]);
    assert_eq!(pointer_subscriptions(Some(no_pointer_handlers())), vec![]);
    assert_eq!(pointer_subscriptions(None), vec![]);
}

#[test]
fn pointer_subscription_order() {
    let all = PointerHandlerSet {
        tapped: true,
        right_tapped: true,
        pressed: true,
        released: true,
        moved: true,
        entered: true,
        exited: true,
        capture_lost: true,
        canceled: true,
        capture_on_press: false,
    };
    assert_eq!(
        pointer_subscriptions(Some(all)),
        vec![
            PointerEvent::Tapped,
            PointerEvent::RightTapped,
            PointerEvent::Pressed,
            PointerEvent::Released,
            PointerEvent::Moved,
            PointerEvent::Entered,
            PointerEvent::Exited,
            PointerEvent::CaptureLost,
            PointerEvent::Canceled,
        ]
    );
    let some = PointerHandlerSet { moved: true, exited: true, ..no_pointer_handlers() };
    assert_eq!(pointer_subscriptions(Some(some)), vec![PointerEvent::Moved, PointerEvent::Exited]);
}

#[test]
fn dropping_capture_releases_the_pointer() {
    let capturing = PointerHandlerSet { capture_on_press: true, ..no_pointer_handlers() };
    assert!(releases_captures_on_replace(Some(true), None));
    assert!(releases_captures_on_replace(Some(true), Some(no_pointer_handlers())));
    assert!(!releases_captures_on_replace(Some(true), Some(capturing)));
    assert!(!releases_captures_on_replace(Some(false), None));
    assert!(!releases_captures_on_replace(None, None));
}

#[test]
fn capture_success_needs_request_and_grant() {
    assert!(press_capture_succeeded(true, Some(true)));
    assert!(!press_capture_succeeded(true, Some(false)));
    assert!(!press_capture_succeeded(true, None));
    assert!(!press_capture_succeeded(false, Some(true)));
}

#[test]
fn drag_subscription_order() {
    let all = DragHandlerSet { enter: true, leave: true, over: true, drop: true };
    assert_eq!(
        drag_subscriptions(Some(all)),
        vec![DragEvent::DragEnter, DragEvent::DragLeave, DragEvent::DragOver, DragEvent::Drop]
    );
    let over = DragHandlerSet { enter: false, leave: false, over: true, drop: false };
    assert_eq!(drag_subscriptions(Some(over)), vec![DragEvent::DragOver]);
    assert_eq!(drag_subscriptions(None), vec![]);
}

#[test]
fn drop_reads_follow_offered_formats() {
    let f = AvailableFormats {
        text: true,
        html: false,
        rtf: false,
        bitmap: false,
        storage_items: false,
        uri: false,
        web_link: false,
        application_link: false,
    };
    assert_eq!(drop_reads(&f), DropReads { storage_items: false, text: true });
    let g = AvailableFormats { storage_items: true, text: false, ..f };
    assert_eq!(drop_reads(&g), DropReads { storage_items: true, text: false });
}
