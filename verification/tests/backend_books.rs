use winui_reactor::backend::{ElevationBook, FlyoutBook, FlyoutOpenAction, IdAllocator, ResourceKeyBook};
use winui_reactor::containers::{classify_container, plan_child_op, ChildOp, ContainerClass, ControlKind, NativeChildOp};

#[test]
fn ids_start_at_one_and_grow() {
    let mut a = IdAllocator::new();
    assert_eq!(a.alloc_id().0, 1);
    assert_eq!(a.alloc_id().0, 2);
    assert_eq!(a.alloc_id().raw(), 3);
}

#[test]
fn flyout_requests_wait_for_the_flyout() {
    let mut b = FlyoutBook::new();
    assert_eq!(b.request_open(5, true, false), FlyoutOpenAction::Deferred);
    assert_eq!(b.request_open(5, false, false), FlyoutOpenAction::Deferred);
    assert!(!b.closed_handler(5, 77, false));
    assert_eq!(b.consume(5), (Some(false), Some(77)));
    assert_eq!(b.consume(5), (None, None));
    assert_eq!(b.request_open(5, true, true), FlyoutOpenAction::ShowNow);
    assert_eq!(b.request_open(5, false, true), FlyoutOpenAction::HideNow);
    assert!(b.closed_handler(5, 78, true));
    assert_eq!(b.consume(5), (None, None));
    b.request_open(6, true, false);
    b.destroy(6);
    assert_eq!(b.consume(6), (None, None));
}

#[test]
fn elevation_waits_for_insertion() {
    let mut b: ElevationBook<f64> = ElevationBook::new();
    assert!(!b.set_depth(3, 8.0));
    assert_eq!(b.inserted(3), Some(8.0));
    assert!(b.set_depth(3, 16.0));
    b.unset_depth(3);
    assert_eq!(b.inserted(3), None);
    assert!(!b.set_depth(3, 4.0));
    b.destroy(3);
    assert_eq!(b.inserted(3), None);
}

#[test]
fn stale_resource_keys() {
    let mut b = ResourceKeyBook::new();
    let first = vec!["A".to_string(), "B".to_string()];
    assert!(b.stale_keys(1, &first).is_empty());
    b.record(1, &first);
    let next = vec!["B".to_string(), "C".to_string()];
    assert_eq!(b.stale_keys(1, &next), vec!["A".to_string()]);
    b.record(1, &next);
    assert_eq!(b.stale_keys(1, &vec![]), vec!["B".to_string(), "C".to_string()]);
    b.record(1, &vec![]);
    assert!(b.stale_keys(1, &vec![]).is_empty());
}

#[test]
fn failed_write_keeps_the_old_record() {
    let mut b = ResourceKeyBook::new();
    let first = vec!["A".to_string()];
    b.record(1, &first);
    let next = vec!["B".to_string()];
    assert_eq!(b.stale_keys(1, &next), vec!["A".to_string()]);
    // The dictionary write failed: nothing is recorded, and the next
    // attempt still removes the key recorded before.
    assert_eq!(b.stale_keys(1, &next), vec!["A".to_string()]);
}

#[test]
fn container_classes() {
    assert_eq!(classify_container(ControlKind::StackPanel), Some(ContainerClass::Panel));
    assert_eq!(classify_container(ControlKind::Border), Some(ContainerClass::SingleChild));
    assert_eq!(classify_container(ControlKind::ScrollViewer), Some(ContainerClass::ContentControl));
    assert_eq!(classify_container(ControlKind::SplitView), Some(ContainerClass::DirectContent));
    assert_eq!(classify_container(ControlKind::TabView), Some(ContainerClass::ItemsVector));
    assert_eq!(classify_container(ControlKind::Button), None);
}

#[test]
fn child_operations_per_container() {
    assert_eq!(plan_child_op(ContainerClass::Panel, ChildOp::Insert(2)), NativeChildOp::InsertAt(2));
    assert_eq!(plan_child_op(ContainerClass::Panel, ChildOp::Move(1, 1)), NativeChildOp::Skip);
    assert_eq!(plan_child_op(ContainerClass::Panel, ChildOp::Move(0, 2)), NativeChildOp::MoveItem(0, 2));
    assert_eq!(plan_child_op(ContainerClass::ItemsVector, ChildOp::Replace(1)), NativeChildOp::SetAt(1));
    assert_eq!(plan_child_op(ContainerClass::SingleChild, ChildOp::Append), NativeChildOp::SetSingle);
    assert_eq!(plan_child_op(ContainerClass::ContentControl, ChildOp::Remove(0)), NativeChildOp::ClearSingle);
    assert_eq!(plan_child_op(ContainerClass::DirectContent, ChildOp::Move(0, 3)), NativeChildOp::Skip);
}
