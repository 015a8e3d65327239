//! Finding a list's scroll viewer in the platform's visual tree: the
//! viewer lives in the list's template, where lookup by name cannot reach
//! it, so the tree is walked by type.
use vstd::prelude::*;

verus! {

/// A node of the visual tree: whether it is a scroll viewer, and its
/// children in order.
pub struct VisualNode {
    pub is_scroll_viewer: bool,
    pub children: Vec<VisualNode>,
}

/// The first scroll viewer below `n` (`n` itself not counted), as the path
/// of child positions leading to it: children are looked at in order, each
/// child before the nodes below it.
pub open spec fn viewer_below(n: VisualNode) -> Option<Seq<usize>>
    decreases n, n.children@.len() + 1,
{
    viewer_among(n, 0)
}

/// The first scroll viewer among the children of `n` from position `i`
/// on, or below them.
pub open spec fn viewer_among(n: VisualNode, i: int) -> Option<Seq<usize>>
    decreases n, n.children@.len() - i,
{
    if i < 0 || i >= n.children@.len() {
        None
    } else {
        let c = n.children@[i];
        if c.is_scroll_viewer {
            Some(seq![i as usize])
        } else {
            match viewer_below(c) {
                Some(p) => Some(seq![i as usize] + p),
                None => viewer_among(n, i + 1),
            }
        }
    }
}

pub open spec fn path_view(r: Option<Vec<usize>>) -> Option<Seq<usize>> {
    match r {
        Some(v) => Some(v@),
        None => None,
    }
}

/// The path to the first scroll viewer below `n`.
pub fn find_scroll_viewer(n: &VisualNode) -> (r: Option<Vec<usize>>)
    ensures
        path_view(r) == viewer_below(*n),
    decreases n,
{
    let len = n.children.len();
    let mut i: usize = 0;
    while i < len
        invariant
            len == n.children@.len(),
            i <= len,
            viewer_among(*n, i as int) == viewer_below(*n),
        decreases len - i,
    {
        let c = &n.children[i];
        if c.is_scroll_viewer {
            let mut p: Vec<usize> = Vec::new();
            p.push(i);
            assert(p@ =~= seq![i]);
            return Some(p);
        }
        match find_scroll_viewer(c) {
            Some(below) => {
                let mut p: Vec<usize> = Vec::new();
                p.push(i);
                let ghost head = p@;
                let m = below.len();
                for k in 0..m
                    invariant
                        m == below@.len(),
                        head == seq![i],
                        p@ == head + below@.take(k as int),
                {
                    p.push(below[k]);
                    assert(below@.take(k + 1) =~= below@.take(k as int).push(below@[k as int]));
                    assert(head + below@.take(k + 1) =~= (head + below@.take(k as int)).push(below@[k as int]));
                }
                assert(below@.take(m as int) =~= below@);
                return Some(p);
            },
            None => {},
        }
        i = i + 1;
    }
    None
}

} // verus!
