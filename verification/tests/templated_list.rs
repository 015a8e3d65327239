use winui_reactor::templated::{
    box_index, list_view_selection_mode, plan_flip_row, plan_item_source, reorder_outcome,
    scroll_target, unbox_index, FlipRowPlan, SelectionMode, SourcePlan,
};

#[test]
fn indices_box_and_unbox() {
    assert_eq!(box_index(5), 5);
    assert_eq!(unbox_index(box_index(42)), Some(42));
    assert_eq!(unbox_index(-1), None);
    assert_eq!(unbox_index(0), Some(0));
}

#[test]
fn item_source_follows_row_count() {
    assert_eq!(plan_item_source(None, 3), SourcePlan::Create(3));
    assert_eq!(plan_item_source(Some(3), 5), SourcePlan::Append(3, 5));
    assert_eq!(plan_item_source(Some(5), 2), SourcePlan::RemoveAtEnd(3));
    assert_eq!(plan_item_source(Some(4), 4), SourcePlan::RemoveAtEnd(0));
}

#[test]
fn reorder_reports_only_a_changed_permutation() {
    assert_eq!(reorder_outcome(&vec![Some(0), Some(1), Some(2)]), None);
    assert_eq!(reorder_outcome(&vec![Some(2), Some(0), Some(1)]), Some(vec![2, 0, 1]));
    assert_eq!(reorder_outcome(&vec![Some(1), None, Some(0)]), None);
    assert_eq!(reorder_outcome(&vec![]), None);
}

#[test]
fn flip_view_rows() {
    assert_eq!(plan_flip_row(3, 1, true), FlipRowPlan::SetAt(1));
    assert_eq!(plan_flip_row(2, 5, true), FlipRowPlan::PadAndAppend(3));
    assert_eq!(plan_flip_row(2, 2, true), FlipRowPlan::PadAndAppend(0));
    assert_eq!(plan_flip_row(3, 1, false), FlipRowPlan::RemoveAt(1));
    assert_eq!(plan_flip_row(3, 4, false), FlipRowPlan::Nothing);
}

#[test]
fn selection_modes_map_to_platform_values() {
    assert_eq!(list_view_selection_mode(SelectionMode::Disabled), 0);
    assert_eq!(list_view_selection_mode(SelectionMode::Single), 1);
    assert_eq!(list_view_selection_mode(SelectionMode::Multiple), 2);
    assert_eq!(list_view_selection_mode(SelectionMode::Extended), 3);
}

#[test]
fn scroll_target_needs_an_existing_row() {
    assert_eq!(scroll_target(-1, 10), None);
    assert_eq!(scroll_target(3, 10), Some(3));
    assert_eq!(scroll_target(10, 10), None);
}
