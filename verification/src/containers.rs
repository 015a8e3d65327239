//! Control kinds, how each kind holds its children, and how a child
//! operation of the reconciler becomes operations on the platform's
//! collections.
use vstd::prelude::*;

verus! {

/// The native controls a backend can create.
#[derive(PartialEq, Eq, Structural, Clone, Copy, Debug)]
pub enum ControlKind {
    AutoSuggestBox,
    Border,
    BreadcrumbBar,
    Button,
    CalendarDatePicker,
    CalendarView,
    Canvas,
    CheckBox,
    ColorPicker,
    ComboBox,
    CommandBar,
    ContentDialog,
    DatePicker,
    DropDownButton,
    Ellipse,
    Expander,
    FlipView,
    Grid,
    GridView,
    HyperlinkButton,
    Image,
    InfoBadge,
    InfoBar,
    Line,
    ListBox,
    ListView,
    MenuBar,
    NavigationView,
    NumberBox,
    PasswordBox,
    PersonPicture,
    Pivot,
    PivotItem,
    ProgressBar,
    ProgressRing,
    RadioButton,
    RadioButtons,
    RatingControl,
    Rectangle,
    RelativePanel,
    RepeatButton,
    RichEditBox,
    RichTextBlock,
    ScrollView,
    ScrollViewer,
    SelectorBar,
    Slider,
    SplitButton,
    SplitView,
    StackPanel,
    SwapChainPanel,
    TabView,
    TabViewItem,
    TeachingTip,
    TextBlock,
    TextBox,
    TimePicker,
    TitleBar,
    ToggleButton,
    ToggleSwitch,
    TreeView,
    Viewbox,
    WebView2,
}

/// How a container kind holds its children.
#[derive(PartialEq, Eq, Structural, Clone, Copy, Debug)]
pub enum ContainerClass {
    /// A panel's child collection.
    Panel,
    /// A single `Child` property.
    SingleChild,
    /// A content control's `Content`.
    ContentControl,
    /// A `Content` property set directly on the control.
    DirectContent,
    /// A collection of items (tabs, pivot items).
    ItemsVector,
}

pub open spec fn container_class(kind: ControlKind) -> Option<ContainerClass> {
    match kind {
        ControlKind::StackPanel | ControlKind::Grid | ControlKind::Canvas
        | ControlKind::RelativePanel => Some(ContainerClass::Panel),
        ControlKind::Border | ControlKind::Viewbox => Some(ContainerClass::SingleChild),
        ControlKind::ScrollViewer | ControlKind::Expander | ControlKind::TabViewItem
        | ControlKind::NavigationView | ControlKind::PivotItem => Some(
            ContainerClass::ContentControl,
        ),
        ControlKind::ScrollView | ControlKind::SplitView => Some(ContainerClass::DirectContent),
        ControlKind::TabView | ControlKind::Pivot => Some(ContainerClass::ItemsVector),
        _ => None,
    }
}

/// How a control kind holds its children; `None` for kinds that are not
/// containers.
pub fn classify_container(kind: ControlKind) -> (c: Option<ContainerClass>)
    ensures
        c == container_class(kind),
{
    match kind {
        ControlKind::StackPanel | ControlKind::Grid | ControlKind::Canvas
        | ControlKind::RelativePanel => Some(ContainerClass::Panel),
        ControlKind::Border | ControlKind::Viewbox => Some(ContainerClass::SingleChild),
        ControlKind::ScrollViewer | ControlKind::Expander | ControlKind::TabViewItem
        | ControlKind::NavigationView | ControlKind::PivotItem => Some(
            ContainerClass::ContentControl,
        ),
        ControlKind::ScrollView | ControlKind::SplitView => Some(ContainerClass::DirectContent),
        ControlKind::TabView | ControlKind::Pivot => Some(ContainerClass::ItemsVector),
        _ => None,
    }
}

/// Whether a container holds a list of children rather than one.
pub open spec fn holds_list(c: ContainerClass) -> bool {
    c == ContainerClass::Panel || c == ContainerClass::ItemsVector
}

/// A child operation of the reconciler.
#[derive(PartialEq, Eq, Structural, Clone, Copy, Debug)]
pub enum ChildOp {
    Append,
    Insert(usize),
    Replace(usize),
    Remove(usize),
    Move(usize, usize),
}

/// An operation on the platform side; for list containers the child
/// being placed is the one the reconciler passes along.
#[derive(PartialEq, Eq, Structural, Clone, Copy, Debug)]
pub enum NativeChildOp {
    Append,
    InsertAt(usize),
    SetAt(usize),
    RemoveAt(usize),
    /// Take the item at `from` out and put it back at `to`.
    MoveItem(usize, usize),
    /// Set the one child (or content).
    SetSingle,
    /// Clear the one child (or content).
    ClearSingle,
    /// Nothing to do.
    Skip,
}

/// Single-child containers have only position 0 to remove.
pub open spec fn child_op_allowed(c: ContainerClass, op: ChildOp) -> bool {
    holds_list(c) || !(op matches ChildOp::Remove(i) && i != 0)
}

pub open spec fn native_child_op(c: ContainerClass, op: ChildOp) -> NativeChildOp {
    if holds_list(c) {
        match op {
            ChildOp::Append => NativeChildOp::Append,
            ChildOp::Insert(i) => NativeChildOp::InsertAt(i),
            ChildOp::Replace(i) => NativeChildOp::SetAt(i),
            ChildOp::Remove(i) => NativeChildOp::RemoveAt(i),
            ChildOp::Move(f, t) => if f == t {
                NativeChildOp::Skip
            } else {
                NativeChildOp::MoveItem(f, t)
            },
        }
    } else {
        match op {
            ChildOp::Append | ChildOp::Insert(_) | ChildOp::Replace(_) => NativeChildOp::SetSingle,
            ChildOp::Remove(_) => NativeChildOp::ClearSingle,
            ChildOp::Move(_, _) => NativeChildOp::Skip,
        }
    }
}

/// Translates a child operation for a container; a move to the same
/// position does nothing, and single-child containers ignore positions.
pub fn plan_child_op(c: ContainerClass, op: ChildOp) -> (n: NativeChildOp)
    requires
        child_op_allowed(c, op),
    ensures
        n == native_child_op(c, op),
{
    let list = match c {
        ContainerClass::Panel | ContainerClass::ItemsVector => true,
        _ => false,
    };
    if list {
        match op {
            ChildOp::Append => NativeChildOp::Append,
            ChildOp::Insert(i) => NativeChildOp::InsertAt(i),
            ChildOp::Replace(i) => NativeChildOp::SetAt(i),
            ChildOp::Remove(i) => NativeChildOp::RemoveAt(i),
            ChildOp::Move(f, t) => if f == t {
                NativeChildOp::Skip
            } else {
                NativeChildOp::MoveItem(f, t)
            },
        }
    } else {
        match op {
            ChildOp::Append | ChildOp::Insert(_) | ChildOp::Replace(_) => NativeChildOp::SetSingle,
            ChildOp::Remove(_) => NativeChildOp::ClearSingle,
            ChildOp::Move(_, _) => NativeChildOp::Skip,
        }
    }
}

/// The children of a list container after a platform operation placing
/// `child`.
pub open spec fn apply_native_list(s: Seq<u32>, n: NativeChildOp, child: u32) -> Seq<u32> {
    match n {
        NativeChildOp::Append => s.push(child),
        NativeChildOp::InsertAt(i) => s.insert(i as int, child),
        NativeChildOp::SetAt(i) => s.update(i as int, child),
        NativeChildOp::RemoveAt(i) => s.remove(i as int),
        NativeChildOp::MoveItem(f, t) => s.remove(f as int).insert(t as int, s[f as int]),
        _ => s,
    }
}

/// Moving a child within a list container keeps the same children, puts
/// the moved child at the target position, and a move onto itself changes
/// nothing.
pub proof fn law_move_child_permutes(c: ContainerClass, s: Seq<u32>, from: usize, to: usize, child: u32)
    requires
        holds_list(c),
        from < s.len(),
        to < s.len(),
    ensures
        ({
            let after = apply_native_list(s, native_child_op(c, ChildOp::Move(from, to)), child);
            &&& after.len() == s.len()
            &&& after[to as int] == s[from as int]
            &&& after.to_multiset() == s.to_multiset()
        }),
{
    if from != to {
        let x = s[from as int];
        let removed = s.remove(from as int);
        vstd::seq_lib::to_multiset_remove(s, from as int);
        vstd::seq_lib::to_multiset_insert(removed, to as int, x);
        s.to_multiset_ensures();
        assert(s.to_multiset().count(x) > 0);
        assert(s.to_multiset().remove(x).insert(x) =~= s.to_multiset()) by {
            broadcast use vstd::multiset::group_multiset_axioms;
        }
    }
}

/// In a list container, the platform operation of each child operation
/// places the child where the reconciler means it: an appended child
/// lands after all others, an inserted one at its position with later
/// children moved one up, a replacing one at its position, and a removal
/// takes out exactly that position; children elsewhere stay as they were.
pub proof fn law_list_child_ops_place_children(c: ContainerClass, s: Seq<u32>, child: u32, i: usize)
    requires
        holds_list(c),
    ensures
        ({
            let after = apply_native_list(s, native_child_op(c, ChildOp::Append), child);
            &&& after.len() == s.len() + 1
            &&& after[s.len() as int] == child
            &&& forall|j: int| 0 <= j < s.len() ==> after[j] == s[j]
        }),
        i <= s.len() ==> ({
            let after = apply_native_list(s, native_child_op(c, ChildOp::Insert(i)), child);
            &&& after.len() == s.len() + 1
            &&& after[i as int] == child
            &&& forall|j: int| 0 <= j < i ==> after[j] == s[j]
            &&& forall|j: int| i < j <= s.len() ==> after[j] == s[j - 1]
        }),
        i < s.len() ==> ({
            let after = apply_native_list(s, native_child_op(c, ChildOp::Replace(i)), child);
            &&& after.len() == s.len()
            &&& after[i as int] == child
            &&& forall|j: int| 0 <= j < s.len() && j != i ==> after[j] == s[j]
        }),
        i < s.len() ==> ({
            let after = apply_native_list(s, native_child_op(c, ChildOp::Remove(i)), child);
            &&& after.len() == s.len() - 1
            &&& forall|j: int| 0 <= j < i ==> after[j] == s[j]
            &&& forall|j: int| i <= j < s.len() - 1 ==> after[j] == s[j + 1]
        }),
{
}

/// A single-child container puts the child in its one slot for an append,
/// an insertion or a replacement, clears it for a removal, and ignores
/// moves.
pub proof fn law_single_child_ops(c: ContainerClass, i: usize, j: usize)
    requires
        !holds_list(c),
    ensures
        native_child_op(c, ChildOp::Append) == NativeChildOp::SetSingle,
        native_child_op(c, ChildOp::Insert(i)) == NativeChildOp::SetSingle,
        native_child_op(c, ChildOp::Replace(i)) == NativeChildOp::SetSingle,
        native_child_op(c, ChildOp::Remove(i)) == NativeChildOp::ClearSingle,
        native_child_op(c, ChildOp::Move(i, j)) == NativeChildOp::Skip,
{
}

} // verus!
