use winui_reactor::visual_tree::{find_scroll_viewer, VisualNode};

fn leaf(is_scroll_viewer: bool) -> VisualNode {
    VisualNode { is_scroll_viewer, children: vec![] }
}

fn node(children: Vec<VisualNode>) -> VisualNode {
    VisualNode { is_scroll_viewer: false, children }
}

#[test]
fn finds_the_viewer_inside_the_template() {
    // list -> border -> [grid -> [header, scroll viewer]]
    let tree = node(vec![node(vec![node(vec![leaf(false), leaf(true)])])]);
    assert_eq!(find_scroll_viewer(&tree), Some(vec![0, 0, 1]));
}

#[test]
fn earlier_subtree_wins_and_root_is_not_counted() {
    let tree = VisualNode {
        is_scroll_viewer: true,
        children: vec![node(vec![leaf(true)]), leaf(true)],
    };
    assert_eq!(find_scroll_viewer(&tree), Some(vec![0, 0]));
    assert_eq!(find_scroll_viewer(&leaf(true)), None);
    assert_eq!(find_scroll_viewer(&node(vec![leaf(false), node(vec![])])), None);
}
