//! What a debugger is told of display lists.

use vstd::prelude::*;

verus! {

/// The kind of an item of a display list.
#[derive(Clone, Copy, Debug, PartialEq, Eq, Structural)]
pub enum SpecificDisplayItem {
    Image,
    YuvImage,
    Text,
    Rectangle,
    ClearRectangle,
    Line,
    Gradient,
    RadialGradient,
    BoxShadow,
    Border,
    PushStackingContext,
    Iframe,
    Clip,
    ClipChain,
    ScrollFrame,
    StickyFrame,
    SetGradientStops,
    PopStackingContext,
    PushShadow,
    PopAllShadows,
}

impl SpecificDisplayItem {
    pub open spec fn text(self) -> Seq<char> {
        match self {
            SpecificDisplayItem::Image => "image"@,
            SpecificDisplayItem::YuvImage => "yuv_image"@,
            SpecificDisplayItem::Text => "text"@,
            SpecificDisplayItem::Rectangle => "rectangle"@,
            SpecificDisplayItem::ClearRectangle => "clear_rectangle"@,
            SpecificDisplayItem::Line => "line"@,
            SpecificDisplayItem::Gradient => "gradient"@,
            SpecificDisplayItem::RadialGradient => "radial_gradient"@,
            SpecificDisplayItem::BoxShadow => "box_shadow"@,
            SpecificDisplayItem::Border => "border"@,
            SpecificDisplayItem::PushStackingContext => "push_stacking_context"@,
            SpecificDisplayItem::Iframe => "iframe"@,
            SpecificDisplayItem::Clip => "clip"@,
            SpecificDisplayItem::ClipChain => "clip_chain"@,
            SpecificDisplayItem::ScrollFrame => "scroll_frame"@,
            SpecificDisplayItem::StickyFrame => "sticky_frame"@,
            SpecificDisplayItem::SetGradientStops => "set_gradient_stops"@,
            SpecificDisplayItem::PopStackingContext => "pop_stacking_context"@,
            SpecificDisplayItem::PushShadow => "push_shadow"@,
            SpecificDisplayItem::PopAllShadows => "pop_all_shadows"@,
        }
    }

    /// The name that a debugger shows.
    pub fn debug_string(&self) -> (r: &'static str)
        ensures
            r@ == self.text(),
    {
        match self {
            SpecificDisplayItem::Image => "image",
            SpecificDisplayItem::YuvImage => "yuv_image",
            SpecificDisplayItem::Text => "text",
            SpecificDisplayItem::Rectangle => "rectangle",
            SpecificDisplayItem::ClearRectangle => "clear_rectangle",
            SpecificDisplayItem::Line => "line",
            SpecificDisplayItem::Gradient => "gradient",
            SpecificDisplayItem::RadialGradient => "radial_gradient",
            SpecificDisplayItem::BoxShadow => "box_shadow",
            SpecificDisplayItem::Border => "border",
            SpecificDisplayItem::PushStackingContext => "push_stacking_context",
            SpecificDisplayItem::Iframe => "iframe",
            SpecificDisplayItem::Clip => "clip",
            SpecificDisplayItem::ClipChain => "clip_chain",
            SpecificDisplayItem::ScrollFrame => "scroll_frame",
            SpecificDisplayItem::StickyFrame => "sticky_frame",
            SpecificDisplayItem::SetGradientStops => "set_gradient_stops",
            SpecificDisplayItem::PopStackingContext => "pop_stacking_context",
            SpecificDisplayItem::PushShadow => "push_shadow",
            SpecificDisplayItem::PopAllShadows => "pop_all_shadows",
        }
    }
}

/// A line of a tree: a node, or an item of a node. The root is no line.
#[derive(Clone, Copy, Debug, PartialEq, Eq, Structural)]
pub struct TreeLine {
    /// The line of the node that this belongs to, or none where that is the root.
    pub parent: Option<usize>,
    /// This is a node, to which other lines can belong.
    pub is_node: bool,
    pub item: SpecificDisplayItem,
}

/// A tree that is being made, with the lines of the nodes that are still open.
#[verifier::ext_equal]
pub struct TreeState {
    pub lines: Seq<TreeLine>,
    pub open: Seq<usize>,
    /// The root was closed: what follows is not looked at.
    pub closed: bool,
}

impl TreeState {
    pub open spec fn first() -> Self {
        TreeState { lines: Seq::empty(), open: Seq::empty(), closed: false }
    }

    pub open spec fn parent(self) -> Option<usize> {
        if self.open.len() > 0 {
            Some(self.open.last())
        } else {
            None
        }
    }

    /// The tree with one more item. A stacking context is a node, to which everything up to
    /// its end belongs.
    pub open spec fn with(self, item: SpecificDisplayItem) -> Self {
        if self.closed {
            self
        } else {
            match item {
                SpecificDisplayItem::PushStackingContext => TreeState {
                    lines: self.lines.push(TreeLine { parent: self.parent(), is_node: true, item }),
                    open: self.open.push(self.lines.len() as usize),
                    closed: false,
                },
                SpecificDisplayItem::PopStackingContext => if self.open.len() > 0 {
                    TreeState { open: self.open.drop_last(), ..self }
                } else {
                    TreeState { closed: true, ..self }
                },
                _ => TreeState {
                    lines: self.lines.push(
                        TreeLine { parent: self.parent(), is_node: false, item },
                    ),
                    ..self
                },
            }
        }
    }

    pub open spec fn with_all(self, items: Seq<SpecificDisplayItem>) -> Self
        decreases items.len(),
    {
        if items.len() == 0 {
            self
        } else {
            self.with_all(items.drop_last()).with(items.last())
        }
    }
}

/// The lines of the tree of a display list.
pub open spec fn tree_of(items: Seq<SpecificDisplayItem>) -> Seq<TreeLine> {
    TreeState::first().with_all(items).lines
}

proof fn lemma_closed(state: TreeState, items: Seq<SpecificDisplayItem>, n: int)
    requires
        0 <= n <= items.len(),
        state.with_all(items.take(n)).closed,
    ensures
        state.with_all(items) == state.with_all(items.take(n)),
    decreases items.len(),
{
    if n < items.len() {
        let earlier = items.drop_last();
        assert(earlier.take(n) =~= items.take(n));
        lemma_closed(state, earlier, n);
    } else {
        assert(items.take(n) =~= items);
    }
}

/// The tree of a display list.
pub fn traverse_items(items: &Vec<SpecificDisplayItem>) -> (r: Vec<TreeLine>)
    ensures
        r@ == tree_of(items@),
{
    let mut lines: Vec<TreeLine> = Vec::new();
    let mut open: Vec<usize> = Vec::new();
    let mut i: usize = 0;
    assert(items@.take(0) =~= Seq::<SpecificDisplayItem>::empty());
    while i < items.len()
        invariant
            i <= items@.len(),
            TreeState::first().with_all(items@.take(i as int)) == (TreeState {
                lines: lines@,
                open: open@,
                closed: false,
            }),
            lines@.len() <= i,
        decreases items@.len() - i,
    {
        assert(items@.take(i as int + 1).drop_last() =~= items@.take(i as int));
        let item = items[i];
        let parent = if open.len() > 0 {
            Some(open[open.len() - 1])
        } else {
            None
        };
        match item {
            SpecificDisplayItem::PushStackingContext => {
                let line: usize = lines.len();
                open.push(line);
                lines.push(TreeLine { parent, is_node: true, item });
            },
            SpecificDisplayItem::PopStackingContext => {
                if open.len() == 0 {
                    proof {
                        lemma_closed(TreeState::first(), items@, i as int + 1);
                    }
                    return lines;
                }
                let ghost before = open@;
                let _ = open.pop();
                assert(open@ =~= before.drop_last());
            },
            _ => {
                lines.push(TreeLine { parent, is_node: false, item });
            },
        }
        i = i + 1;
    }
    assert(items@.take(i as int) =~= items@);
    lines
}

/// The open nodes of a tree are nodes among its lines, in order.
pub open spec fn open_nodes(state: TreeState) -> bool {
    forall|i: int|
        0 <= i < state.open.len() ==> (#[trigger] state.open[i]) < state.lines.len()
            && state.lines[state.open[i] as int].is_node
}

/// A line belongs to a node that stands before it, or to the root.
pub open spec fn has_parent(lines: Seq<TreeLine>, i: int) -> bool {
    lines[i].parent matches Some(parent) ==> parent < i && lines[parent as int].is_node
}

/// Every line belongs to a node that stands before it, or to the root.
pub open spec fn parents_come_first(lines: Seq<TreeLine>) -> bool {
    forall|i: int| 0 <= i < lines.len() ==> #[trigger] has_parent(lines, i)
}

/// The nodes are the stacking contexts.
pub open spec fn contexts_are_nodes(lines: Seq<TreeLine>) -> bool {
    forall|i: int|
        0 <= i < lines.len() ==> (#[trigger] lines[i]).is_node == (
        lines[i].item is PushStackingContext)
}

proof fn lemma_tree_step(before: TreeState, item: SpecificDisplayItem)
    requires
        before.lines.len() < usize::MAX,
        open_nodes(before),
        parents_come_first(before.lines),
        contexts_are_nodes(before.lines),
    ensures
        open_nodes(before.with(item)),
        parents_come_first(before.with(item).lines),
        contexts_are_nodes(before.with(item).lines),
        before.with(item).lines.len() <= before.lines.len() + 1,
{
    let after = before.with(item);
    if before.open.len() > 0 {
        assert(before.open[before.open.len() - 1] < before.lines.len());
    }
    assert forall|i: int| 0 <= i < after.open.len() implies (#[trigger] after.open[i])
        < after.lines.len() && after.lines[after.open[i] as int].is_node by {
        if i < before.open.len() {
            assert(before.open[i] < before.lines.len());
        }
    }
    assert forall|i: int| 0 <= i < after.lines.len() implies #[trigger] has_parent(
        after.lines,
        i,
    ) by {
        if i < before.lines.len() {
            assert(has_parent(before.lines, i));
        }
    }
}

/// What a debugger is told of a display list is a tree: every line belongs to a node before
/// it or to the root, and nodes are exactly the stacking contexts.
pub proof fn debugger_is_told_a_tree(items: Seq<SpecificDisplayItem>)
    requires
        items.len() <= usize::MAX,
    ensures
        parents_come_first(tree_of(items)),
        contexts_are_nodes(tree_of(items)),
        open_nodes(TreeState::first().with_all(items)),
        tree_of(items).len() <= items.len(),
    decreases items.len(),
{
    if items.len() > 0 {
        debugger_is_told_a_tree(items.drop_last());
        lemma_tree_step(TreeState::first().with_all(items.drop_last()), items.last());
    }
}

} // verus!
