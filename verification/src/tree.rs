//! The pane tree: leaves that hold a widget, binary splits and the root
//! wrapper, with the operations that every node shares.

use crate::geometry::{columns, rows, split_columns, split_rows, Ratio, Rect, Side, SplitLayout};
use crate::style::WStyleOpt;
use crate::widget::{views_of, BasicWidget, PaintBox, PaintBoxView, Widget, WidgetView};
use vstd::prelude::*;

verus! {

/// What a pane tree holds: the shape of the tree, the content of its leaves
/// and the ratios of its splits.
pub enum Tree {
    /// A pane that shows one widget.
    Leaf(WidgetView),
    /// Two panes side by side; the ratio is the first's share of the width.
    HSplit(Box<Tree>, Box<Tree>, Ratio),
    /// Two panes one above the other; the ratio is the first's share of the
    /// height.
    VSplit(Box<Tree>, Box<Tree>, Ratio),
    /// The entry point of a tree, with its single child.
    Root(Box<Tree>),
}

impl Tree {
    /// A fresh empty leaf.
    pub open spec fn blank_leaf() -> Tree {
        Tree::Leaf(WidgetView::blank())
    }

    /// The node has child slots that an index can address: every node but a
    /// leaf.
    pub open spec fn has_children(self) -> bool {
        !(self is Leaf)
    }

    /// The child in slot `index`, if the node has that slot.
    pub open spec fn child(self, index: int) -> Option<Tree> {
        match self {
            Tree::Leaf(_) => None,
            Tree::HSplit(a, b, _) | Tree::VSplit(a, b, _) => if index == 0 {
                Some(*a)
            } else if index == 1 {
                Some(*b)
            } else {
                None
            },
            Tree::Root(c) => if index == 0 {
                Some(*c)
            } else {
                None
            },
        }
    }

    /// The node after `node` was put into slot `index`. A split or a root
    /// takes it where it has that slot and is unchanged where it has not. A
    /// leaf has no slot: it takes over the widget of `node` where `node` is a
    /// leaf, and is unchanged otherwise.
    pub open spec fn with_child(self, index: int, node: Tree) -> Tree {
        match self {
            Tree::Leaf(_) => match node {
                Tree::Leaf(w) => Tree::Leaf(w),
                _ => self,
            },
            Tree::HSplit(a, b, r) => if index == 0 {
                Tree::HSplit(Box::new(node), b, r)
            } else if index == 1 {
                Tree::HSplit(a, Box::new(node), r)
            } else {
                self
            },
            Tree::VSplit(a, b, r) => if index == 0 {
                Tree::VSplit(Box::new(node), b, r)
            } else if index == 1 {
                Tree::VSplit(a, Box::new(node), r)
            } else {
                self
            },
            Tree::Root(c) => if index == 0 {
                Tree::Root(Box::new(node))
            } else {
                self
            },
        }
    }

    /// The node with `widget` as its content, where it is a leaf.
    pub open spec fn with_widget(self, widget: WidgetView) -> Tree {
        match self {
            Tree::Leaf(_) => Tree::Leaf(widget),
            _ => self,
        }
    }

    /// The node with `ratio` as its split ratio, where it is a split.
    pub open spec fn with_ratio(self, ratio: Ratio) -> Tree {
        match self {
            Tree::HSplit(a, b, _) => Tree::HSplit(a, b, ratio),
            Tree::VSplit(a, b, _) => Tree::VSplit(a, b, ratio),
            _ => self,
        }
    }

    /// The widget of the node, where it is a leaf.
    pub open spec fn widget(self) -> Option<WidgetView> {
        match self {
            Tree::Leaf(w) => Some(w),
            _ => None,
        }
    }

    /// The tree with `style` merged into the base style of every widget.
    pub open spec fn restyled(self, style: WStyleOpt) -> Tree
        decreases self,
    {
        match self {
            Tree::Leaf(w) => Tree::Leaf(w.restyled(style)),
            Tree::HSplit(a, b, r) => Tree::HSplit(
                Box::new(a.restyled(style)),
                Box::new(b.restyled(style)),
                r,
            ),
            Tree::VSplit(a, b, r) => Tree::VSplit(
                Box::new(a.restyled(style)),
                Box::new(b.restyled(style)),
                r,
            ),
            Tree::Root(c) => Tree::Root(Box::new(c.restyled(style))),
        }
    }

    /// The tree with `style` as the override of every widget.
    pub open spec fn overridden(self, style: WStyleOpt) -> Tree
        decreases self,
    {
        match self {
            Tree::Leaf(w) => Tree::Leaf(w.overridden(style)),
            Tree::HSplit(a, b, r) => Tree::HSplit(
                Box::new(a.overridden(style)),
                Box::new(b.overridden(style)),
                r,
            ),
            Tree::VSplit(a, b, r) => Tree::VSplit(
                Box::new(a.overridden(style)),
                Box::new(b.overridden(style)),
                r,
            ),
            Tree::Root(c) => Tree::Root(Box::new(c.overridden(style))),
        }
    }

    /// The tree with no override on any widget.
    pub open spec fn cleared(self) -> Tree
        decreases self,
    {
        match self {
            Tree::Leaf(w) => Tree::Leaf(w.cleared()),
            Tree::HSplit(a, b, r) => Tree::HSplit(Box::new(a.cleared()), Box::new(b.cleared()), r),
            Tree::VSplit(a, b, r) => Tree::VSplit(Box::new(a.cleared()), Box::new(b.cleared()), r),
            Tree::Root(c) => Tree::Root(Box::new(c.cleared())),
        }
    }

    /// No widget of the tree carries an override.
    pub open spec fn override_free(self) -> bool
        decreases self,
    {
        match self {
            Tree::Leaf(w) => w.override_style is None,
            Tree::HSplit(a, b, _) | Tree::VSplit(a, b, _) => a.override_free() && b.override_free(),
            Tree::Root(c) => c.override_free(),
        }
    }

    /// No root stands in the tree: it is made of splits and leaves alone.
    pub open spec fn rootless(self) -> bool
        decreases self,
    {
        match self {
            Tree::Leaf(_) => true,
            Tree::HSplit(a, b, _) | Tree::VSplit(a, b, _) => a.rootless() && b.rootless(),
            Tree::Root(_) => false,
        }
    }

    /// The tree is a root over splits and leaves: it has one root, at its
    /// top.
    pub open spec fn proper(self) -> bool {
        match self {
            Tree::Root(c) => c.rootless(),
            _ => false,
        }
    }

    /// The number of edges on the longest way from this node down to a leaf.
    pub open spec fn depth(self) -> nat
        decreases self,
    {
        match self {
            Tree::Leaf(_) => 0,
            Tree::HSplit(a, b, _) | Tree::VSplit(a, b, _) => if a.depth() >= b.depth() {
                a.depth() + 1
            } else {
                b.depth() + 1
            },
            Tree::Root(c) => c.depth() + 1,
        }
    }

    /// The paint requests that draw the tree into `area`, in drawing order.
    /// A leaf paints its widget. A split divides `area` between its children
    /// or, where a part would be under 2 cells, gives all of it to one of
    /// them. A root paints its child, and nothing at all where `area` cannot
    /// hold a border with an interior.
    pub open spec fn paint(self, area: Rect) -> Seq<PaintBoxView>
        decreases self,
    {
        match self {
            Tree::Leaf(w) => w.paint(area),
            Tree::HSplit(a, b, r) => match columns(area, r) {
                SplitLayout::Collapsed(Side::First) => a.paint(area),
                SplitLayout::Collapsed(Side::Second) => b.paint(area),
                SplitLayout::Divided(left, right) => a.paint(left) + b.paint(right),
            },
            Tree::VSplit(a, b, r) => match rows(area, r) {
                SplitLayout::Collapsed(Side::First) => a.paint(area),
                SplitLayout::Collapsed(Side::Second) => b.paint(area),
                SplitLayout::Divided(top, bottom) => a.paint(top) + b.paint(bottom),
            },
            Tree::Root(c) => if area.paintable() {
                c.paint(area)
            } else {
                Seq::empty()
            },
        }
    }

    /// The node that `path` leads to from this node, one child index per
    /// step; `None` as soon as a step names a slot that is not there.
    pub open spec fn at(self, path: Seq<u8>) -> Option<Tree>
        decreases path.len(),
    {
        if path.len() == 0 {
            Some(self)
        } else {
            match self.child(path[0] as int) {
                Some(c) => c.at(path.drop_first()),
                None => None,
            }
        }
    }

    /// The tree with the node that `path` leads to replaced by `node`; the
    /// tree itself where `path` leads nowhere.
    pub open spec fn with_subtree(self, path: Seq<u8>, node: Tree) -> Tree
        decreases path.len(),
    {
        if path.len() == 0 {
            node
        } else {
            match self.child(path[0] as int) {
                Some(c) => self.with_child(path[0] as int, c.with_subtree(path.drop_first(), node)),
                None => self,
            }
        }
    }

    /// An empty split of two fresh leaves side by side.
    pub open spec fn blank_hsplit() -> Tree {
        Tree::HSplit(Box::new(Tree::blank_leaf()), Box::new(Tree::blank_leaf()), Ratio::one_half())
    }

    /// An empty split of two fresh leaves one above the other.
    pub open spec fn blank_vsplit() -> Tree {
        Tree::VSplit(Box::new(Tree::blank_leaf()), Box::new(Tree::blank_leaf()), Ratio::one_half())
    }
}

/// Putting back the node that a path leads to leaves the tree as it is, and
/// so does replacing the node of a path that leads nowhere.
pub proof fn lemma_with_subtree_same(tree: Tree, path: Seq<u8>, node: Tree)
    requires
        tree.at(path) == Some(node) || tree.at(path) is None,
    ensures
        tree.with_subtree(path, node) == tree,
    decreases path.len(),
{
    if path.len() > 0 {
        match tree.child(path[0] as int) {
            Some(c) => {
                lemma_with_subtree_same(c, path.drop_first(), node);
            },
            None => {},
        }
    }
}

/// After the node that a path leads to was replaced, the path leads to the
/// replacement.
pub proof fn lemma_at_with_subtree(tree: Tree, path: Seq<u8>, node: Tree)
    requires
        tree.at(path) is Some,
    ensures
        tree.with_subtree(path, node).at(path) == Some(node),
    decreases path.len(),
{
    if path.len() > 0 {
        let c = tree.child(path[0] as int)->Some_0;
        lemma_at_with_subtree(c, path.drop_first(), node);
    }
}

/// Of two replacements of the node that a path leads to, only the second
/// shows.
pub proof fn lemma_with_subtree_twice(tree: Tree, path: Seq<u8>, first: Tree, second: Tree)
    ensures
        tree.with_subtree(path, first).with_subtree(path, second) == tree.with_subtree(
            path,
            second,
        ),
    decreases path.len(),
{
    if path.len() > 0 {
        match tree.child(path[0] as int) {
            Some(c) => {
                lemma_with_subtree_twice(c, path.drop_first(), first, second);
            },
            None => {},
        }
    }
}

/// Where a path ends one step below another, the longer one leads to the
/// child, in the slot of the last step, of the node the shorter one leads to.
pub proof fn lemma_at_push(tree: Tree, path: Seq<u8>, index: u8)
    ensures
        tree.at(path.push(index)) == match tree.at(path) {
            Some(n) => n.child(index as int),
            None => None,
        },
    decreases path.len(),
{
    if path.len() == 0 {
        assert(path.push(index).drop_first() =~= Seq::<u8>::empty());
        match tree.child(index as int) {
            Some(c) => {
                assert(c.at(Seq::<u8>::empty()) == Some(c));
            },
            None => {},
        }
    } else {
        assert(path.push(index).drop_first() =~= path.drop_first().push(index));
        assert(path.push(index)[0] == path[0]);
        match tree.child(path[0] as int) {
            Some(c) => {
                lemma_at_push(c, path.drop_first(), index);
            },
            None => {},
        }
    }
}

/// Replacing the child, in a slot that holds one, of the node that a path
/// leads to is replacing the node one step further down that path.
pub proof fn lemma_with_subtree_push(tree: Tree, path: Seq<u8>, index: u8, node: Tree)
    requires
        tree.at(path) matches Some(p) && p.child(index as int) is Some,
    ensures
        tree.with_subtree(path.push(index), node) == tree.with_subtree(
            path,
            tree.at(path)->Some_0.with_child(index as int, node),
        ),
    decreases path.len(),
{
    let longer = path.push(index);
    if path.len() == 0 {
        assert(longer.drop_first() =~= Seq::<u8>::empty());
        assert(longer[0] == index);
        let c = tree.child(index as int)->Some_0;
        assert(c.with_subtree(longer.drop_first(), node) == node);
        assert(tree.with_subtree(longer, node) == tree.with_child(index as int, node));
    } else {
        assert(longer.drop_first() =~= path.drop_first().push(index));
        assert(longer[0] == path[0]);
        let c = tree.child(path[0] as int)->Some_0;
        lemma_with_subtree_push(c, path.drop_first(), index, node);
        assert(tree.with_subtree(longer, node) == tree.with_child(
            path[0] as int,
            c.with_subtree(longer.drop_first(), node),
        ));
    }
}

/// Setting or clearing overrides changes no shape: a node has a child in a
/// slot after it exactly where it had one before, and that child is the old
/// one with the same change made to it.
pub proof fn lemma_override_keeps_children(node: Tree, style: WStyleOpt, index: int)
    ensures
        node.overridden(style).child(index) == match node.child(index) {
            Some(c) => Some(c.overridden(style)),
            None => None,
        },
        node.cleared().child(index) == match node.child(index) {
            Some(c) => Some(c.cleared()),
            None => None,
        },
        node.overridden(style).has_children() == node.has_children(),
        node.cleared().has_children() == node.has_children(),
{
}

/// An override that is set on a whole tree and cleared again leaves no
/// trace: no widget carries an override afterwards, and a tree in which none
/// did before is exactly what it was.
pub proof fn lemma_tree_override_round_trip(tree: Tree, style: WStyleOpt)
    ensures
        tree.overridden(style).cleared() == tree.cleared(),
        tree.cleared().override_free(),
        tree.override_free() <==> tree.cleared() == tree,
        tree.override_free() ==> tree.overridden(style).cleared() == tree,
    decreases tree,
{
    match tree {
        Tree::Leaf(w) => {},
        Tree::HSplit(a, b, _) | Tree::VSplit(a, b, _) => {
            lemma_tree_override_round_trip(*a, style);
            lemma_tree_override_round_trip(*b, style);
        },
        Tree::Root(c) => {
            lemma_tree_override_round_trip(*c, style);
        },
    }
}

/// An override set on a tree replaces whatever overrides lay on it: it makes
/// no difference whether they were cleared before or another was set.
pub proof fn lemma_override_replaces(tree: Tree, earlier: WStyleOpt, style: WStyleOpt)
    ensures
        tree.cleared().overridden(style) == tree.overridden(style),
        tree.overridden(earlier).overridden(style) == tree.overridden(style),
        tree.cleared().cleared() == tree.cleared(),
    decreases tree,
{
    match tree {
        Tree::Leaf(w) => {},
        Tree::HSplit(a, b, _) | Tree::VSplit(a, b, _) => {
            lemma_override_replaces(*a, earlier, style);
            lemma_override_replaces(*b, earlier, style);
        },
        Tree::Root(c) => {
            lemma_override_replaces(*c, earlier, style);
        },
    }
}

/// Setting and clearing overrides and putting a rootless node into a slot
/// keep a tree rootless, and every child of a rootless node is rootless.
pub proof fn lemma_rootless_kept(tree: Tree, style: WStyleOpt, index: int, node: Tree)
    requires
        tree.rootless(),
    ensures
        tree.overridden(style).rootless(),
        tree.cleared().rootless(),
        node.rootless() ==> tree.with_child(index, node).rootless(),
        tree.child(index) matches Some(c) ==> c.rootless(),
    decreases tree,
{
    match tree {
        Tree::Leaf(w) => {},
        Tree::HSplit(a, b, _) | Tree::VSplit(a, b, _) => {
            lemma_rootless_kept(*a, style, index, node);
            lemma_rootless_kept(*b, style, index, node);
        },
        Tree::Root(c) => {},
    }
}

/// In a rootless tree a path that leads to a node leads to a rootless node,
/// every step of it names slot 0 or 1, and the path without its last step
/// leads to a node too.
pub proof fn lemma_rootless_at(tree: Tree, path: Seq<u8>)
    requires
        tree.rootless(),
        tree.at(path) is Some,
    ensures
        tree.at(path)->Some_0.rootless(),
        path.len() >= 1 ==> path.last() <= 1 && tree.at(path.drop_last()) is Some,
    decreases path.len(),
{
    if path.len() > 0 {
        let c = tree.child(path[0] as int)->Some_0;
        lemma_rootless_kept(tree, WStyleOpt::empty(), path[0] as int, tree);
        lemma_rootless_at(c, path.drop_first());
        if path.len() > 1 {
            assert(path.drop_first().last() == path.last());
            assert(path.drop_last().drop_first() =~= path.drop_first().drop_last());
            assert(path.drop_last()[0] == path[0]);
        } else {
            assert(path.drop_last() =~= Seq::<u8>::empty());
        }
    }
}

/// Replacing a node of a rootless tree by a rootless node leaves the tree
/// rootless.
pub proof fn lemma_rootless_with_subtree(tree: Tree, path: Seq<u8>, node: Tree)
    requires
        tree.rootless(),
        node.rootless(),
    ensures
        tree.with_subtree(path, node).rootless(),
    decreases path.len(),
{
    if path.len() > 0 {
        match tree.child(path[0] as int) {
            Some(c) => {
                lemma_rootless_kept(tree, WStyleOpt::empty(), path[0] as int, node);
                lemma_rootless_with_subtree(c, path.drop_first(), node);
                lemma_rootless_kept(
                    tree,
                    WStyleOpt::empty(),
                    path[0] as int,
                    c.with_subtree(path.drop_first(), node),
                );
            },
            None => {},
        }
    }
}

/// Clearing the overrides of a tree changes no shape: a path leads to a
/// node afterwards exactly where it did before, and to that node cleared.
pub proof fn lemma_cleared_at(tree: Tree, path: Seq<u8>)
    ensures
        tree.cleared().at(path) == match tree.at(path) {
            Some(n) => Some(n.cleared()),
            None => None,
        },
    decreases path.len(),
{
    if path.len() > 0 {
        lemma_override_keeps_children(tree, WStyleOpt::empty(), path[0] as int);
        match tree.child(path[0] as int) {
            Some(c) => {
                lemma_cleared_at(c, path.drop_first());
            },
            None => {},
        }
    }
}

/// A split whose layout collapses paints exactly what the surviving child
/// paints in the whole rectangle, the first child where the ratio is above
/// one half and the second otherwise; nothing of the other child is painted.
pub proof fn lemma_collapsed_split_paints_one(a: Tree, b: Tree, ratio: Ratio, area: Rect)
    ensures
        columns(area, ratio) is Collapsed ==> Tree::HSplit(Box::new(a), Box::new(b), ratio).paint(
            area,
        ) == if ratio.above_half() {
            a.paint(area)
        } else {
            b.paint(area)
        },
        rows(area, ratio) is Collapsed ==> Tree::VSplit(Box::new(a), Box::new(b), ratio).paint(
            area,
        ) == if ratio.above_half() {
            a.paint(area)
        } else {
            b.paint(area)
        },
        columns(area, ratio) is Collapsed <==> (ratio.cut(area.width as int) < 2 || area.width
            - ratio.cut(area.width as int) < 2),
        rows(area, ratio) is Collapsed <==> (ratio.cut(area.height as int) < 2 || area.height
            - ratio.cut(area.height as int) < 2),
{
}

/// Every box that a tree paints into a rectangle can hold a border with an
/// interior, lies within that rectangle and has its interior one cell inside
/// its border.
pub proof fn lemma_paint_within(tree: Tree, area: Rect)
    requires
        area.fits(),
    ensures
        forall|i: int|
            0 <= i < tree.paint(area).len() ==> {
                let b = #[trigger] tree.paint(area)[i];
                &&& b.area.paintable()
                &&& b.area.fits()
                &&& b.interior == b.area.inset()
                &&& area.x <= b.area.x
                &&& b.area.x + b.area.width <= area.x + area.width
                &&& area.y <= b.area.y
                &&& b.area.y + b.area.height <= area.y + area.height
            },
    decreases tree,
{
    match tree {
        Tree::Leaf(w) => {},
        Tree::HSplit(a, b, r) => {
            crate::geometry::lemma_cut_bounds(r, area.width as int);
            match columns(area, r) {
                SplitLayout::Collapsed(Side::First) => lemma_paint_within(*a, area),
                SplitLayout::Collapsed(Side::Second) => lemma_paint_within(*b, area),
                SplitLayout::Divided(left, right) => {
                    lemma_paint_within(*a, left);
                    lemma_paint_within(*b, right);
                },
            }
        },
        Tree::VSplit(a, b, r) => {
            crate::geometry::lemma_cut_bounds(r, area.height as int);
            match rows(area, r) {
                SplitLayout::Collapsed(Side::First) => lemma_paint_within(*a, area),
                SplitLayout::Collapsed(Side::Second) => lemma_paint_within(*b, area),
                SplitLayout::Divided(top, bottom) => {
                    lemma_paint_within(*a, top);
                    lemma_paint_within(*b, bottom);
                },
            }
        },
        Tree::Root(c) => {
            if area.paintable() {
                lemma_paint_within(*c, area);
            }
        },
    }
}

/// A pane that shows one widget.
#[derive(Debug, PartialEq, Eq)]
pub struct BasicContainer {
    pub child: BasicWidget,
}

/// The entry point of a pane tree, with its single child.
#[derive(Debug, PartialEq, Eq)]
pub struct RootContainer {
    pub child: Box<Container>,
}

/// Two panes side by side.
#[derive(Debug, PartialEq, Eq)]
pub struct HSplitContainer {
    pub first: Box<Container>,
    pub second: Box<Container>,
    pub split: Ratio,
}

/// Two panes one above the other.
#[derive(Debug, PartialEq, Eq)]
pub struct VSplitContainer {
    pub first: Box<Container>,
    pub second: Box<Container>,
    pub split: Ratio,
}

/// A node of the pane tree.
#[derive(Debug, PartialEq, Eq)]
pub enum Container {
    Leaf(BasicContainer),
    HSplit(HSplitContainer),
    VSplit(VSplitContainer),
    Root(RootContainer),
}

/// What the tree below `node` holds.
pub open spec fn tree_of(node: Container) -> Tree
    decreases node,
{
    match node {
        Container::Leaf(leaf) => Tree::Leaf(leaf.child@),
        Container::HSplit(s) => Tree::HSplit(
            Box::new(tree_of(*s.first)),
            Box::new(tree_of(*s.second)),
            s.split,
        ),
        Container::VSplit(s) => Tree::VSplit(
            Box::new(tree_of(*s.first)),
            Box::new(tree_of(*s.second)),
            s.split,
        ),
        Container::Root(root) => Tree::Root(Box::new(tree_of(*root.child))),
    }
}

impl View for Container {
    type V = Tree;

    open spec fn view(&self) -> Tree {
        tree_of(*self)
    }
}

impl View for BasicContainer {
    type V = Tree;

    open spec fn view(&self) -> Tree {
        Tree::Leaf(self.child@)
    }
}

impl View for RootContainer {
    type V = Tree;

    open spec fn view(&self) -> Tree {
        Tree::Root(Box::new(tree_of(*self.child)))
    }
}

impl View for HSplitContainer {
    type V = Tree;

    open spec fn view(&self) -> Tree {
        Tree::HSplit(Box::new(tree_of(*self.first)), Box::new(tree_of(*self.second)), self.split)
    }
}

impl View for VSplitContainer {
    type V = Tree;

    open spec fn view(&self) -> Tree {
        Tree::VSplit(Box::new(tree_of(*self.first)), Box::new(tree_of(*self.second)), self.split)
    }
}

impl BasicContainer {
    /// A leaf that shows `child`.
    pub fn new(child: BasicWidget) -> (r: BasicContainer)
        ensures
            r@ == Tree::Leaf(child@),
    {
        BasicContainer { child }
    }

    /// The paint requests of the leaf's widget in `area`.
    pub fn draw(&self, area: Rect) -> (r: Vec<PaintBox>)
        requires
            area.fits(),
        ensures
            views_of(r@) == self@.paint(area),
    {
        self.child.draw(area)
    }

    /// Merges `style` into the base style of the widget.
    pub fn set_style(&mut self, style: WStyleOpt)
        ensures
            final(self)@ == old(self)@.restyled(style),
    {
        self.child.set_style(style);
    }

    /// Makes `style` the override of the widget.
    pub fn set_override_style(&mut self, style: WStyleOpt)
        ensures
            final(self)@ == old(self)@.overridden(style),
    {
        self.child.set_override_style(style);
    }

    /// Removes the override of the widget.
    pub fn unset_override_style(&mut self)
        ensures
            final(self)@ == old(self)@.cleared(),
    {
        self.child.unset_override_style();
    }

    /// A leaf has no child slot: it takes over the widget of `child` where
    /// `child` is a leaf, and stays as it is otherwise.
    pub fn set_child(&mut self, index: usize, child: Container)
        ensures
            final(self)@ == old(self)@.with_child(index as int, child@),
    {
        match child {
            Container::Leaf(leaf) => {
                self.child = leaf.child;
            },
            _ => {},
        }
    }

    /// A leaf has no child: always `None`.
    pub fn get_child(&self, index: u8) -> (r: Option<&Container>)
        ensures
            r is None,
            self@.child(index as int) is None,
    {
        None
    }

    /// A leaf has no child: always `None`.
    pub fn get_child_mut(&mut self, index: u8) -> (r: Option<&mut Container>)
        ensures
            r is None,
            old(self)@.child(index as int) is None,
            *final(self) == *old(self),
    {
        None
    }

    /// Replaces the widget.
    pub fn set_widget(&mut self, widget: BasicWidget)
        ensures
            final(self)@ == old(self)@.with_widget(widget@),
    {
        self.child = widget;
    }

    /// The widget.
    pub fn get_widget(&self) -> (r: Option<&BasicWidget>)
        ensures
            r matches Some(w) && self@.widget() == Some(w@),
    {
        Some(&self.child)
    }

    /// The widget, for changing in place.
    pub fn get_widget_mut(&mut self) -> (r: Option<&mut BasicWidget>)
        ensures
            r matches Some(w) && old(self)@.widget() == Some(w@) && final(self)@ == Tree::Leaf(
                final(w)@,
            ),
    {
        Some(&mut self.child)
    }

    /// A leaf has no child slots: always `false`.
    pub fn has_children(&self) -> (r: bool)
        ensures
            !r,
            r == self@.has_children(),
    {
        false
    }
}

impl Default for BasicContainer {
    /// A fresh empty leaf.
    fn default() -> (r: BasicContainer)
        ensures
            r@ == Tree::blank_leaf(),
    {
        BasicContainer { child: BasicWidget::default() }
    }
}

impl RootContainer {
    /// A root over a fresh empty leaf.
    pub fn new() -> (r: RootContainer)
        ensures
            r@ == Tree::Root(Box::new(Tree::blank_leaf())),
    {
        RootContainer { child: Box::new(Container::Leaf(BasicContainer::default())) }
    }

    /// The root as a node of the tree.
    pub fn into_dyn_container(self) -> (r: Container)
        ensures
            r@ == self@,
            r == Container::Root(self),
    {
        Container::Root(self)
    }

    /// The paint requests of the child in `area`; none where `area` cannot
    /// hold a border with an interior.
    pub fn draw(&self, area: Rect) -> (r: Vec<PaintBox>)
        requires
            area.fits(),
        ensures
            views_of(r@) == self@.paint(area),
        decreases self,
    {
        if !area.is_paintable() {
            let nothing: Vec<PaintBox> = Vec::new();
            assert(views_of(nothing@) =~= Seq::empty());
            return nothing;
        }
        self.child.draw(area)
    }

    /// Merges `style` into the base style of every widget below the root.
    pub fn set_style(&mut self, style: WStyleOpt)
        ensures
            final(self)@ == old(self)@.restyled(style),
        decreases *old(self),
    {
        self.child.set_style(style);
    }

    /// Makes `style` the override of every widget below the root.
    pub fn set_override_style(&mut self, style: WStyleOpt)
        ensures
            final(self)@ == old(self)@.overridden(style),
        decreases *old(self),
    {
        self.child.set_override_style(style);
    }

    /// Removes the override of every widget below the root.
    pub fn unset_override_style(&mut self)
        ensures
            final(self)@ == old(self)@.cleared(),
        decreases *old(self),
    {
        self.child.unset_override_style();
    }

    /// Replaces the child where `index` is 0; without effect otherwise.
    pub fn set_child(&mut self, index: usize, child: Container)
        ensures
            final(self)@ == old(self)@.with_child(index as int, child@),
    {
        if index == 0 {
            self.child = Box::new(child);
        }
    }

    /// The child where `index` is 0; `None` otherwise.
    pub fn get_child(&self, index: u8) -> (r: Option<&Container>)
        ensures
            match r {
                Some(c) => self@.child(index as int) == Some(c@),
                None => self@.child(index as int) is None,
            },
    {
        if index == 0 {
            Some(&*self.child)
        } else {
            None
        }
    }

    /// The child where `index` is 0, for changing in place; `None`
    /// otherwise.
    pub fn get_child_mut(&mut self, index: u8) -> (r: Option<&mut Container>)
        ensures
            match r {
                Some(c) => old(self)@.child(index as int) == Some(c@) && final(self)@ == old(
                    self,
                )@.with_child(index as int, final(c)@),
                None => old(self)@.child(index as int) is None && *final(self) == *old(self),
            },
    {
        if index == 0 {
            Some(&mut *self.child)
        } else {
            None
        }
    }

    /// A root holds no widget: without effect.
    pub fn set_widget(&mut self, widget: BasicWidget)
        ensures
            *final(self) == *old(self),
            final(self)@ == old(self)@.with_widget(widget@),
    {
    }

    /// A root holds no widget: always `None`.
    pub fn get_widget(&self) -> (r: Option<&BasicWidget>)
        ensures
            r is None,
            self@.widget() is None,
    {
        None
    }

    /// A root holds no widget: always `None`.
    pub fn get_widget_mut(&mut self) -> (r: Option<&mut BasicWidget>)
        ensures
            r is None,
            old(self)@.widget() is None,
            *final(self) == *old(self),
    {
        None
    }

    /// A root has a child slot: always `true`.
    pub fn has_children(&self) -> (r: bool)
        ensures
            r,
            r == self@.has_children(),
    {
        true
    }
}

impl Default for RootContainer {
    /// A root over a fresh empty leaf.
    fn default() -> (r: RootContainer)
        ensures
            r@ == Tree::Root(Box::new(Tree::blank_leaf())),
    {
        RootContainer::new()
    }
}

impl HSplitContainer {
    /// A split that shows `left` beside `right`, `left` taking the share
    /// `split` of the width.
    pub fn new(left: Container, right: Container, split: Ratio) -> (r: HSplitContainer)
        ensures
            r@ == Tree::HSplit(Box::new(left@), Box::new(right@), split),
    {
        HSplitContainer { first: Box::new(left), second: Box::new(right), split }
    }

    /// Changes the share of the width that the first child takes.
    pub fn set_split(&mut self, split: Ratio)
        ensures
            final(self)@ == old(self)@.with_ratio(split),
    {
        self.split = split;
    }

    /// The paint requests of both children, each in its column of `area`, or
    /// of one child alone in all of `area` where a column would be under 2
    /// cells wide.
    pub fn draw(&self, area: Rect) -> (r: Vec<PaintBox>)
        requires
            area.fits(),
        ensures
            views_of(r@) == self@.paint(area),
        decreases self,
    {
        match split_columns(area, &self.split) {
            SplitLayout::Collapsed(Side::First) => self.first.draw(area),
            SplitLayout::Collapsed(Side::Second) => self.second.draw(area),
            SplitLayout::Divided(left, right) => {
                let mut list = self.first.draw(left);
                let mut rest = self.second.draw(right);
                assert(views_of(list@ + rest@) =~= views_of(list@) + views_of(rest@));
                list.append(&mut rest);
                list
            },
        }
    }

    /// Merges `style` into the base style of every widget in both children.
    pub fn set_style(&mut self, style: WStyleOpt)
        ensures
            final(self)@ == old(self)@.restyled(style),
        decreases *old(self),
    {
        self.first.set_style(style);
        self.second.set_style(style);
    }

    /// Makes `style` the override of every widget in both children.
    pub fn set_override_style(&mut self, style: WStyleOpt)
        ensures
            final(self)@ == old(self)@.overridden(style),
        decreases *old(self),
    {
        self.first.set_override_style(style);
        self.second.set_override_style(style);
    }

    /// Removes the override of every widget in both children.
    pub fn unset_override_style(&mut self)
        ensures
            final(self)@ == old(self)@.cleared(),
        decreases *old(self),
    {
        self.first.unset_override_style();
        self.second.unset_override_style();
    }

    /// Replaces the first child where `index` is 0 and the second where it is
    /// 1; without effect otherwise.
    pub fn set_child(&mut self, index: usize, child: Container)
        ensures
            final(self)@ == old(self)@.with_child(index as int, child@),
    {
        if index == 0 {
            self.first = Box::new(child);
        } else if index == 1 {
            self.second = Box::new(child);
        }
    }

    /// The first child where `index` is 0, the second where it is 1; `None`
    /// otherwise.
    pub fn get_child(&self, index: u8) -> (r: Option<&Container>)
        ensures
            match r {
                Some(c) => self@.child(index as int) == Some(c@),
                None => self@.child(index as int) is None,
            },
    {
        if index == 0 {
            Some(&*self.first)
        } else if index == 1 {
            Some(&*self.second)
        } else {
            None
        }
    }

    /// The first child where `index` is 0, the second where it is 1, for
    /// changing in place; `None` otherwise.
    pub fn get_child_mut(&mut self, index: u8) -> (r: Option<&mut Container>)
        ensures
            match r {
                Some(c) => old(self)@.child(index as int) == Some(c@) && final(self)@ == old(
                    self,
                )@.with_child(index as int, final(c)@),
                None => old(self)@.child(index as int) is None && *final(self) == *old(self),
            },
    {
        if index == 0 {
            Some(&mut *self.first)
        } else if index == 1 {
            Some(&mut *self.second)
        } else {
            None
        }
    }

    /// A split holds no widget: without effect.
    pub fn set_widget(&mut self, widget: BasicWidget)
        ensures
            *final(self) == *old(self),
            final(self)@ == old(self)@.with_widget(widget@),
    {
    }

    /// A split holds no widget: always `None`.
    pub fn get_widget(&self) -> (r: Option<&BasicWidget>)
        ensures
            r is None,
            self@.widget() is None,
    {
        None
    }

    /// A split holds no widget: always `None`.
    pub fn get_widget_mut(&mut self) -> (r: Option<&mut BasicWidget>)
        ensures
            r is None,
            old(self)@.widget() is None,
            *final(self) == *old(self),
    {
        None
    }

    /// A split has child slots: always `true`.
    pub fn has_children(&self) -> (r: bool)
        ensures
            r,
            r == self@.has_children(),
    {
        true
    }
}

impl Default for HSplitContainer {
    /// Two fresh empty leaves side by side, each with half of the width.
    fn default() -> (r: HSplitContainer)
        ensures
            r@ == Tree::blank_hsplit(),
    {
        HSplitContainer {
            first: Box::new(Container::Leaf(BasicContainer::default())),
            second: Box::new(Container::Leaf(BasicContainer::default())),
            split: Ratio::half(),
        }
    }
}

impl VSplitContainer {
    /// A split that shows `top` above `bottom`, `top` taking the share
    /// `split` of the height.
    pub fn new(top: Container, bottom: Container, split: Ratio) -> (r: VSplitContainer)
        ensures
            r@ == Tree::VSplit(Box::new(top@), Box::new(bottom@), split),
    {
        VSplitContainer { first: Box::new(top), second: Box::new(bottom), split }
    }

    /// The paint requests of both children, each in its row of `area`, or of
    /// one child alone in all of `area` where a row would be under 2 cells
    /// high.
    pub fn draw(&self, area: Rect) -> (r: Vec<PaintBox>)
        requires
            area.fits(),
        ensures
            views_of(r@) == self@.paint(area),
        decreases self,
    {
        match split_rows(area, &self.split) {
            SplitLayout::Collapsed(Side::First) => self.first.draw(area),
            SplitLayout::Collapsed(Side::Second) => self.second.draw(area),
            SplitLayout::Divided(top, bottom) => {
                let mut list = self.first.draw(top);
                let mut rest = self.second.draw(bottom);
                assert(views_of(list@ + rest@) =~= views_of(list@) + views_of(rest@));
                list.append(&mut rest);
                list
            },
        }
    }

    /// Merges `style` into the base style of every widget in both children.
    pub fn set_style(&mut self, style: WStyleOpt)
        ensures
            final(self)@ == old(self)@.restyled(style),
        decreases *old(self),
    {
        self.first.set_style(style);
        self.second.set_style(style);
    }

    /// Makes `style` the override of every widget in both children.
    pub fn set_override_style(&mut self, style: WStyleOpt)
        ensures
            final(self)@ == old(self)@.overridden(style),
        decreases *old(self),
    {
        self.first.set_override_style(style);
        self.second.set_override_style(style);
    }

    /// Removes the override of every widget in both children.
    pub fn unset_override_style(&mut self)
        ensures
            final(self)@ == old(self)@.cleared(),
        decreases *old(self),
    {
        self.first.unset_override_style();
        self.second.unset_override_style();
    }

    /// Replaces the first child where `index` is 0 and the second where it is
    /// 1; without effect otherwise.
    pub fn set_child(&mut self, index: usize, child: Container)
        ensures
            final(self)@ == old(self)@.with_child(index as int, child@),
    {
        if index == 0 {
            self.first = Box::new(child);
        } else if index == 1 {
            self.second = Box::new(child);
        }
    }

    /// The first child where `index` is 0, the second where it is 1; `None`
    /// otherwise.
    pub fn get_child(&self, index: u8) -> (r: Option<&Container>)
        ensures
            match r {
                Some(c) => self@.child(index as int) == Some(c@),
                None => self@.child(index as int) is None,
            },
    {
        if index == 0 {
            Some(&*self.first)
        } else if index == 1 {
            Some(&*self.second)
        } else {
            None
        }
    }

    /// The first child where `index` is 0, the second where it is 1, for
    /// changing in place; `None` otherwise.
    pub fn get_child_mut(&mut self, index: u8) -> (r: Option<&mut Container>)
        ensures
            match r {
                Some(c) => old(self)@.child(index as int) == Some(c@) && final(self)@ == old(
                    self,
                )@.with_child(index as int, final(c)@),
                None => old(self)@.child(index as int) is None && *final(self) == *old(self),
            },
    {
        if index == 0 {
            Some(&mut *self.first)
        } else if index == 1 {
            Some(&mut *self.second)
        } else {
            None
        }
    }

    /// A split holds no widget: without effect.
    pub fn set_widget(&mut self, widget: BasicWidget)
        ensures
            *final(self) == *old(self),
            final(self)@ == old(self)@.with_widget(widget@),
    {
    }

    /// A split holds no widget: always `None`.
    pub fn get_widget(&self) -> (r: Option<&BasicWidget>)
        ensures
            r is None,
            self@.widget() is None,
    {
        None
    }

    /// A split holds no widget: always `None`.
    pub fn get_widget_mut(&mut self) -> (r: Option<&mut BasicWidget>)
        ensures
            r is None,
            old(self)@.widget() is None,
            *final(self) == *old(self),
    {
        None
    }

    /// A split has child slots: always `true`.
    pub fn has_children(&self) -> (r: bool)
        ensures
            r,
            r == self@.has_children(),
    {
        true
    }
}

impl Default for VSplitContainer {
    /// Two fresh empty leaves one above the other, each with half of the
    /// height.
    fn default() -> (r: VSplitContainer)
        ensures
            r@ == Tree::blank_vsplit(),
    {
        VSplitContainer {
            first: Box::new(Container::Leaf(BasicContainer::default())),
            second: Box::new(Container::Leaf(BasicContainer::default())),
            split: Ratio::half(),
        }
    }
}

impl Container {
    /// The paint requests that draw the tree below this node into `area`.
    pub fn draw(&self, area: Rect) -> (r: Vec<PaintBox>)
        requires
            area.fits(),
        ensures
            views_of(r@) == self@.paint(area),
        decreases self,
    {
        match self {
            Container::Leaf(leaf) => leaf.draw(area),
            Container::HSplit(split) => split.draw(area),
            Container::VSplit(split) => split.draw(area),
            Container::Root(root) => root.draw(area),
        }
    }

    /// Merges `style` into the base style of every widget below this node.
    pub fn set_style(&mut self, style: WStyleOpt)
        ensures
            final(self)@ == old(self)@.restyled(style),
        decreases *old(self),
    {
        match self {
            Container::Leaf(leaf) => leaf.set_style(style),
            Container::HSplit(split) => split.set_style(style),
            Container::VSplit(split) => split.set_style(style),
            Container::Root(root) => root.set_style(style),
        }
    }

    /// Makes `style` the override of every widget below this node.
    pub fn set_override_style(&mut self, style: WStyleOpt)
        ensures
            final(self)@ == old(self)@.overridden(style),
        decreases *old(self),
    {
        match self {
            Container::Leaf(leaf) => leaf.set_override_style(style),
            Container::HSplit(split) => split.set_override_style(style),
            Container::VSplit(split) => split.set_override_style(style),
            Container::Root(root) => root.set_override_style(style),
        }
    }

    /// Removes the override of every widget below this node.
    pub fn unset_override_style(&mut self)
        ensures
            final(self)@ == old(self)@.cleared(),
        decreases *old(self),
    {
        match self {
            Container::Leaf(leaf) => leaf.unset_override_style(),
            Container::HSplit(split) => split.unset_override_style(),
            Container::VSplit(split) => split.unset_override_style(),
            Container::Root(root) => root.unset_override_style(),
        }
    }

    /// Puts `child` into slot `index`; without effect where the node has no
    /// such slot.
    pub fn set_child(&mut self, index: usize, child: Container)
        ensures
            final(self)@ == old(self)@.with_child(index as int, child@),
    {
        match self {
            Container::Leaf(leaf) => leaf.set_child(index, child),
            Container::HSplit(split) => split.set_child(index, child),
            Container::VSplit(split) => split.set_child(index, child),
            Container::Root(root) => root.set_child(index, child),
        }
    }

    /// The child in slot `index`, if the node has that slot.
    pub fn get_child(&self, index: u8) -> (r: Option<&Container>)
        ensures
            match r {
                Some(c) => self@.child(index as int) == Some(c@),
                None => self@.child(index as int) is None,
            },
    {
        match self {
            Container::Leaf(leaf) => leaf.get_child(index),
            Container::HSplit(split) => split.get_child(index),
            Container::VSplit(split) => split.get_child(index),
            Container::Root(root) => root.get_child(index),
        }
    }

    /// The child in slot `index`, if the node has that slot, for changing in
    /// place: what the child is left as is what the slot holds afterwards.
    pub fn get_child_mut(&mut self, index: u8) -> (r: Option<&mut Container>)
        ensures
            match r {
                Some(c) => old(self)@.child(index as int) == Some(c@) && final(self)@ == old(
                    self,
                )@.with_child(index as int, final(c)@),
                None => old(self)@.child(index as int) is None && *final(self) == *old(self),
            },
    {
        match self {
            Container::Leaf(leaf) => leaf.get_child_mut(index),
            Container::HSplit(split) => split.get_child_mut(index),
            Container::VSplit(split) => split.get_child_mut(index),
            Container::Root(root) => root.get_child_mut(index),
        }
    }

    /// Replaces the widget of a leaf; without effect on any other node.
    pub fn set_widget(&mut self, widget: BasicWidget)
        ensures
            final(self)@ == old(self)@.with_widget(widget@),
    {
        match self {
            Container::Leaf(leaf) => leaf.set_widget(widget),
            Container::HSplit(split) => split.set_widget(widget),
            Container::VSplit(split) => split.set_widget(widget),
            Container::Root(root) => root.set_widget(widget),
        }
    }

    /// The widget of a leaf; `None` for any other node.
    pub fn get_widget(&self) -> (r: Option<&BasicWidget>)
        ensures
            match r {
                Some(w) => self@.widget() == Some(w@),
                None => self@.widget() is None,
            },
    {
        match self {
            Container::Leaf(leaf) => leaf.get_widget(),
            Container::HSplit(split) => split.get_widget(),
            Container::VSplit(split) => split.get_widget(),
            Container::Root(root) => root.get_widget(),
        }
    }

    /// The widget of a leaf, for changing in place; `None` for any other
    /// node.
    pub fn get_widget_mut(&mut self) -> (r: Option<&mut BasicWidget>)
        ensures
            match r {
                Some(w) => old(self)@.widget() == Some(w@) && final(self)@ == Tree::Leaf(
                    final(w)@,
                ),
                None => old(self)@.widget() is None && *final(self) == *old(self),
            },
    {
        match self {
            Container::Leaf(leaf) => leaf.get_widget_mut(),
            Container::HSplit(split) => split.get_widget_mut(),
            Container::VSplit(split) => split.get_widget_mut(),
            Container::Root(root) => root.get_widget_mut(),
        }
    }

    /// The number of edges on the longest way from this node down to a
    /// leaf, or the largest number there is where the tree is deeper still.
    pub fn depth(&self) -> (r: usize)
        ensures
            r == if self@.depth() <= usize::MAX {
                self@.depth() as int
            } else {
                usize::MAX as int
            },
        decreases self,
    {
        let below = match self {
            Container::Leaf(_) => {
                return 0;
            },
            Container::HSplit(split) => {
                let a = split.first.depth();
                let b = split.second.depth();
                if a >= b {
                    a
                } else {
                    b
                }
            },
            Container::VSplit(split) => {
                let a = split.first.depth();
                let b = split.second.depth();
                if a >= b {
                    a
                } else {
                    b
                }
            },
            Container::Root(root) => root.child.depth(),
        };
        if below == usize::MAX {
            below
        } else {
            below + 1
        }
    }

    /// Whether the node has child slots that an index can address.
    pub fn has_children(&self) -> (r: bool)
        ensures
            r == self@.has_children(),
    {
        match self {
            Container::Leaf(leaf) => leaf.has_children(),
            Container::HSplit(split) => split.has_children(),
            Container::VSplit(split) => split.has_children(),
            Container::Root(root) => root.has_children(),
        }
    }
}

} // verus!
