//! The focus stack: a path of child indices from the root of a pane tree to
//! the current node, resolved anew on every access, and the moves that keep
//! one node highlighted.

use crate::style::WStyleOpt;
use crate::tree::{
    lemma_at_push, lemma_at_with_subtree, lemma_cleared_at, lemma_override_keeps_children,
    lemma_override_replaces, lemma_rootless_at, lemma_rootless_kept,
    lemma_rootless_with_subtree, lemma_tree_override_round_trip, lemma_with_subtree_push,
    lemma_with_subtree_same, lemma_with_subtree_twice, BasicContainer, Container, Tree,
};
use vstd::prelude::*;

verus! {

/// What a focus stack holds: the tree and the path to the current node.
pub struct Focus {
    pub path: Seq<u8>,
    pub tree: Tree,
}

/// The slot that a shift from slot `cur_index` aims at: one to the left, but
/// not below 0, or one to the right.
pub open spec fn shift_target(cur_index: u8, left: bool) -> int {
    if left {
        if cur_index == 0 {
            0
        } else {
            cur_index - 1
        }
    } else {
        cur_index + 1
    }
}

impl Focus {
    /// The path starts in the single child slot of the root, so that it is
    /// at least one step long.
    pub open spec fn anchored(self) -> bool {
        self.path.len() >= 1 && self.path[0] == 0
    }

    /// The tree is a root over splits and leaves, and the path starts in the
    /// child slot of the root and leads to a node.
    pub open spec fn resolved(self) -> bool {
        &&& self.tree.proper()
        &&& self.anchored()
        &&& self.current() is Some
    }

    /// The node that the path leads to, if it leads anywhere.
    pub open spec fn current(self) -> Option<Tree> {
        self.tree.at(self.path)
    }

    /// The same focus over a tree in which `node` stands where the path
    /// leads.
    pub open spec fn with_current(self, node: Tree) -> Focus {
        Focus { path: self.path, tree: self.tree.with_subtree(self.path, node) }
    }

    /// The focus with the highlight on every widget of the current node.
    pub open spec fn selected(self) -> Focus {
        match self.current() {
            Some(n) => self.with_current(n.overridden(WStyleOpt::highlight())),
            None => self,
        }
    }

    /// The focus with no override on any widget of the current node.
    pub open spec fn unselected(self) -> Focus {
        match self.current() {
            Some(n) => self.with_current(n.cleared()),
            None => self,
        }
    }

    /// The focus with the highlight on every widget of the child in slot
    /// `index` of the current node, where there is such a child.
    pub open spec fn child_selected(self, index: int) -> Focus {
        match self.current() {
            Some(n) => match n.child(index) {
                Some(c) => self.with_current(
                    n.with_child(index, c.overridden(WStyleOpt::highlight())),
                ),
                None => self,
            },
            None => self,
        }
    }

    /// The focus with no override on any widget of the child in slot `index`
    /// of the current node, where there is such a child.
    pub open spec fn child_unselected(self, index: int) -> Focus {
        match self.current() {
            Some(n) => match n.child(index) {
                Some(c) => self.with_current(n.with_child(index, c.cleared())),
                None => self,
            },
            None => self,
        }
    }

    /// The focus over a tree in which `node` was put into slot `index` of
    /// the current node, as far as the path leads to a node.
    pub open spec fn child_replaced(self, index: int, node: Tree) -> Focus {
        match self.current() {
            Some(n) => self.with_current(n.with_child(index, node)),
            None => self,
        }
    }

    /// The focus after a reset: a fresh leaf stands in slot 0 of the root
    /// and the path is the one step into that slot.
    pub open spec fn reset(self) -> Focus {
        Focus { path: seq![0u8], tree: self.tree.with_child(0, Tree::blank_leaf()) }
    }

    /// The focus with the path one step longer.
    pub open spec fn pushed(self, index: u8) -> Focus {
        Focus { path: self.path.push(index), tree: self.tree }
    }

    /// The current node has child slots.
    pub open spec fn current_has_children(self) -> bool {
        match self.current() {
            Some(n) => n.has_children(),
            None => false,
        }
    }

    /// The focus after a move down into slot `index`: the highlight is taken
    /// off the current node; the path grows by `index` where the current node
    /// has child slots; the highlight goes on child 0 of the node the path
    /// now leads to, or on that node itself where it has no child slots.
    pub open spec fn focused_down(self, index: u8) -> Focus {
        let cleared = self.unselected();
        let entered = if cleared.current_has_children() {
            cleared.pushed(index)
        } else {
            cleared
        };
        if entered.current() is Some {
            if entered.current_has_children() {
                entered.child_selected(0)
            } else {
                entered.selected()
            }
        } else {
            entered
        }
    }

    /// The index that a move up returns: the last step of the path, or 0
    /// where the path has no step to give up.
    pub open spec fn popped_index(self) -> u8 {
        if self.path.len() > 1 {
            self.path.last()
        } else {
            0
        }
    }

    /// The focus after a move up: the highlight is taken off the current
    /// node; the path loses its last step unless that is its only one; the
    /// highlight goes on the child that the path came from.
    pub open spec fn focused_up(self) -> Focus {
        let cleared = self.unselected();
        let left = if self.path.len() > 1 {
            Focus { path: self.path.drop_last(), tree: cleared.tree }
        } else {
            cleared
        };
        left.child_selected(self.popped_index() as int)
    }

    /// The current node has a child in the slot that a shift from
    /// `cur_index` aims at.
    pub open spec fn can_shift(self, cur_index: u8, left: bool) -> bool {
        match self.current() {
            Some(n) => n.child(shift_target(cur_index, left)) is Some,
            None => false,
        }
    }

    /// The focus after a shift among the children of the current node: the
    /// highlight is taken off the current node and goes on the sibling aimed
    /// at where there is one, else on the current node itself.
    pub open spec fn focus_shifted(self, cur_index: u8, left: bool) -> Focus {
        let cleared = self.unselected();
        if cleared.current() is Some {
            if cleared.can_shift(cur_index, left) {
                cleared.child_selected(shift_target(cur_index, left))
            } else {
                cleared.selected()
            }
        } else {
            cleared
        }
    }
}

/// A path and the root of the tree that it is resolved in.
#[derive(Debug, PartialEq, Eq)]
pub struct ContainerStack {
    pub stack: Vec<u8>,
    pub root: Container,
}

impl View for ContainerStack {
    type V = Focus;

    open spec fn view(&self) -> Focus {
        Focus { path: self.stack@, tree: self.root@ }
    }
}

/// The node that the steps of `path` from position `from` on lead to.
fn node_at<'a>(node: &'a Container, path: &Vec<u8>, from: usize) -> (r: Option<&'a Container>)
    requires
        from <= path.len(),
    ensures
        match r {
            Some(c) => node@.at(path@.skip(from as int)) == Some(c@),
            None => node@.at(path@.skip(from as int)) is None,
        },
    decreases path.len() - from,
{
    if from == path.len() {
        Some(node)
    } else {
        assert(path@.skip(from as int).drop_first() =~= path@.skip(from as int + 1));
        assert(path@.skip(from as int)[0] == path@[from as int]);
        match node.get_child(path[from]) {
            Some(c) => node_at(c, path, from + 1),
            None => None,
        }
    }
}

/// The node that the steps of `path` from position `from` on lead to, for
/// changing in place.
fn node_at_mut<'a>(node: &'a mut Container, path: &Vec<u8>, from: usize) -> (r: Option<
    &'a mut Container,
>)
    requires
        from <= path.len(),
    ensures
        match r {
            Some(c) => old(node)@.at(path@.skip(from as int)) == Some(c@) && final(node)@ == old(
                node,
            )@.with_subtree(path@.skip(from as int), final(c)@),
            None => old(node)@.at(path@.skip(from as int)) is None && final(node)@ == old(node)@,
        },
    decreases path.len() - from,
{
    if from == path.len() {
        Some(node)
    } else {
        assert(path@.skip(from as int).drop_first() =~= path@.skip(from as int + 1));
        assert(path@.skip(from as int)[0] == path@[from as int]);
        match node.get_child_mut(path[from]) {
            Some(c) => node_at_mut(c, path, from + 1),
            None => None,
        }
    }
}

impl ContainerStack {
    /// A stack over `root` with an empty path: the current node is `root`
    /// itself until the first `push`.
    pub fn new(root: Container) -> (r: ContainerStack)
        ensures
            r@ == (Focus { path: Seq::empty(), tree: root@ }),
            r.root == root,
    {
        ContainerStack { stack: Vec::new(), root }
    }

    /// Makes the path one step longer, whether or not it then leads
    /// anywhere.
    pub fn push(&mut self, id: u8)
        ensures
            final(self)@ == old(self)@.pushed(id),
            final(self).root == old(self).root,
    {
        self.stack.push(id);
    }

    /// The node that the path leads to; `None` where a step of the path
    /// names a slot that is not there.
    pub fn current(&self) -> (r: Option<&Container>)
        ensures
            match r {
                Some(c) => self@.current() == Some(c@),
                None => self@.current() is None,
            },
    {
        assert(self.stack@.skip(0) =~= self.stack@);
        node_at(&self.root, &self.stack, 0)
    }

    /// The node that the path leads to, for changing in place: what it is
    /// left as is what stands at the end of the path afterwards.
    pub fn current_mut(&mut self) -> (r: Option<&mut Container>)
        ensures
            final(self).stack == old(self).stack,
            match r {
                Some(c) => old(self)@.current() == Some(c@) && final(self)@ == old(
                    self,
                )@.with_current(final(c)@),
                None => old(self)@.current() is None && final(self)@ == old(self)@,
            },
    {
        assert(self.stack@.skip(0) =~= self.stack@);
        node_at_mut(&mut self.root, &self.stack, 0)
    }

    /// Puts the highlight on the current node.
    pub fn set_selected_style(&mut self)
        ensures
            final(self)@ == old(self)@.selected(),
    {
        if let Some(container) = self.current_mut() {
            container.set_override_style(WStyleOpt::selected());
        }
    }

    /// Takes every override off the current node.
    pub fn unset_selected_style(&mut self)
        ensures
            final(self)@ == old(self)@.unselected(),
    {
        if let Some(container) = self.current_mut() {
            container.unset_override_style();
        }
    }

    /// Puts the highlight on the child in slot `index` of the current node.
    pub fn set_child_selected_style(&mut self, index: u8)
        ensures
            final(self)@ == old(self)@.child_selected(index as int),
    {
        proof {
            if let Some(n) = self@.current() {
                lemma_with_subtree_same(self@.tree, self@.path, n);
            }
        }
        if let Some(container) = self.current_mut() {
            if let Some(child) = container.get_child_mut(index) {
                child.set_override_style(WStyleOpt::selected());
            }
        }
    }

    /// Takes every override off the child in slot `index` of the current
    /// node.
    pub fn unset_child_selected_style(&mut self, index: u8)
        ensures
            final(self)@ == old(self)@.child_unselected(index as int),
    {
        proof {
            if let Some(n) = self@.current() {
                lemma_with_subtree_same(self@.tree, self@.path, n);
            }
        }
        if let Some(container) = self.current_mut() {
            if let Some(child) = container.get_child_mut(index) {
                child.unset_override_style();
            }
        }
    }

    /// Puts `child` into slot `index` of the current node; without effect
    /// where the path leads nowhere or the node has no such slot.
    pub fn replace_child(&mut self, index: usize, child: Container)
        ensures
            final(self)@ == old(self)@.child_replaced(index as int, child@),
    {
        if let Some(container) = self.current_mut() {
            container.set_child(index, child);
        }
    }

    /// Puts a fresh leaf in place of everything below the root and makes the
    /// path the one step to it.
    pub fn reset(&mut self)
        ensures
            final(self)@ == old(self)@.reset(),
            final(self)@.anchored(),
    {
        self.root.set_child(0, Container::Leaf(BasicContainer::default()));
        let mut path: Vec<u8> = Vec::new();
        path.push(0);
        self.stack = path;
        assert(self.stack@ =~= seq![0u8]);
    }

    /// Whether the current node has child slots; `false` where the path
    /// leads nowhere.
    pub fn current_has_children(&self) -> (r: bool)
        ensures
            r == self@.current_has_children(),
    {
        if let Some(container) = self.current() {
            container.has_children()
        } else {
            false
        }
    }

    /// Moves the focus down into slot `index` of the current node. The path
    /// grows only where the current node has child slots. Afterwards the
    /// highlight lies on child 0 of the new current node, or on that node
    /// itself where it is a leaf.
    pub fn focus_down(&mut self, index: u8)
        ensures
            final(self)@ == old(self)@.focused_down(index),
            old(self)@.anchored() ==> final(self)@.anchored(),
            final(self)@.path.len() >= old(self)@.path.len(),
    {
        self.unset_selected_style();
        if self.current_has_children() {
            self.push(index);
        }
        if let Some(container) = self.current() {
            if container.has_children() {
                self.set_child_selected_style(0);
            } else {
                self.set_selected_style();
            }
        }
    }

    /// Moves the focus up to the parent of the current node and returns the
    /// slot that it came from. A path of one step or none stays as it is, and
    /// 0 is returned. Afterwards the highlight lies on the child in the slot
    /// returned.
    pub fn focus_up(&mut self) -> (r: u8)
        ensures
            r == old(self)@.popped_index(),
            final(self)@ == old(self)@.focused_up(),
            old(self)@.path.len() <= 1 ==> r == 0 && final(self)@.path == old(self)@.path,
            old(self)@.path.len() > 1 ==> final(self)@.path == old(self)@.path.drop_last(),
            old(self)@.path.len() >= 1 ==> final(self)@.path.len() >= 1,
            old(self)@.anchored() ==> final(self)@.anchored(),
    {
        self.unset_selected_style();
        let ret: u8 = if self.stack.len() > 1 {
            self.stack.pop().unwrap()
        } else {
            0
        };
        self.set_child_selected_style(ret);
        ret
    }

    /// Moves the highlight to the sibling left or right of slot `cur_index`
    /// among the children of the current node, and says whether there is
    /// such a sibling. Where there is none the highlight goes on the current
    /// node itself. The path stays as it is.
    pub fn focus_shift(&mut self, cur_index: u8, left: bool) -> (r: bool)
        ensures
            r == old(self)@.can_shift(cur_index, left),
            final(self)@ == old(self)@.focus_shifted(cur_index, left),
            final(self)@.path == old(self)@.path,
    {
        proof {
            lemma_unselected_keeps_shape(self@, shift_target(cur_index, left));
        }
        self.unset_selected_style();
        let target: Option<u8> = if left {
            if cur_index == 0 {
                Some(0)
            } else {
                Some(cur_index - 1)
            }
        } else if cur_index == u8::MAX {
            None
        } else {
            Some(cur_index + 1)
        };
        match self.current() {
            Some(container) => {
                let found = match target {
                    Some(new_index) => container.get_child(new_index).is_some(),
                    None => false,
                };
                if found {
                    self.set_child_selected_style(target.unwrap());
                    true
                } else {
                    self.set_selected_style();
                    false
                }
            },
            None => false,
        }
    }
}

/// Taking the overrides off the current node changes no shape: the path
/// leads somewhere afterwards exactly where it did before, and the node it
/// leads to has a child in a slot exactly where it had one before.
pub proof fn lemma_unselected_keeps_shape(focus: Focus, index: int)
    ensures
        focus.unselected().path == focus.path,
        focus.unselected().current() is Some <==> focus.current() is Some,
        focus.unselected().current_has_children() == focus.current_has_children(),
        focus.unselected().current() matches Some(m) ==> (m.child(index) is Some
            <==> focus.current()->Some_0.child(index) is Some),
{
    if let Some(n) = focus.current() {
        lemma_at_with_subtree(focus.tree, focus.path, n.cleared());
        lemma_override_keeps_children(n, WStyleOpt::highlight(), index);
    }
}

/// Highlighting a child of the current node changes no shape: the path
/// leads somewhere afterwards exactly where it did before, and the node it
/// leads to has a child in a slot exactly where it had one before.
pub proof fn lemma_child_selected_keeps_shape(focus: Focus, index: int, other: int)
    ensures
        focus.child_selected(index).path == focus.path,
        focus.child_selected(index).current() is Some <==> focus.current() is Some,
        focus.child_selected(index).current_has_children() == focus.current_has_children(),
        focus.child_selected(index).current() matches Some(m) ==> (m.child(other) is Some
            <==> focus.current()->Some_0.child(other) is Some),
{
    if let Some(n) = focus.current() {
        if let Some(c) = n.child(index) {
            lemma_at_with_subtree(
                focus.tree,
                focus.path,
                n.with_child(index, c.overridden(WStyleOpt::highlight())),
            );
        }
    }
}

/// A highlight that is put on the current node and taken off again leaves
/// the tree as taking the overrides off the current node leaves it, and
/// exactly as it was where no widget of the current node carried an override.
pub proof fn lemma_select_round_trip(focus: Focus)
    ensures
        focus.selected().unselected() == focus.unselected(),
        focus.current() matches Some(n) && n.override_free() ==> focus.selected().unselected()
            == focus,
{
    if let Some(n) = focus.current() {
        let lit = n.overridden(WStyleOpt::highlight());
        lemma_at_with_subtree(focus.tree, focus.path, lit);
        lemma_tree_override_round_trip(n, WStyleOpt::highlight());
        lemma_with_subtree_twice(focus.tree, focus.path, lit, n.cleared());
        if n.override_free() {
            lemma_with_subtree_same(focus.tree, focus.path, n);
        }
    }
}

/// A shift leaves the highlight in one place: of the current node, with all
/// its earlier overrides taken off, either the sibling aimed at carries the
/// highlight and nothing else does, or, where there is no such sibling, the
/// whole node carries it. Nothing outside the current node changes.
pub proof fn lemma_shift_highlights_one(focus: Focus, cur_index: u8, left: bool)
    requires
        focus.current() is Some,
    ensures
        ({
            let n = focus.current()->Some_0;
            let target = shift_target(cur_index, left);
            let after = focus.focus_shifted(cur_index, left);
            let lit = match n.child(target) {
                Some(c) => n.cleared().with_child(target, c.overridden(WStyleOpt::highlight())),
                None => n.overridden(WStyleOpt::highlight()),
            };
            &&& after.current() == Some(lit)
            &&& after.tree == focus.tree.with_subtree(focus.path, lit)
            &&& after.path == focus.path
        }),
{
    let n = focus.current()->Some_0;
    let target = shift_target(cur_index, left);
    let hl = WStyleOpt::highlight();
    let cleared = focus.unselected();
    lemma_at_with_subtree(focus.tree, focus.path, n.cleared());
    lemma_override_keeps_children(n, hl, target);
    lemma_override_replaces(n, hl, hl);
    let lit = match n.child(target) {
        Some(c) => {
            lemma_override_replaces(c, hl, hl);
            n.cleared().with_child(target, c.overridden(hl))
        },
        None => n.overridden(hl),
    };
    lemma_with_subtree_twice(focus.tree, focus.path, n.cleared(), lit);
    lemma_at_with_subtree(focus.tree, focus.path, lit);
}

/// A move up from a node below the first step leaves the tree as putting the
/// highlight on that node leaves it: the node that the path came from
/// carries the highlight and nothing else has changed. The path has lost its
/// last step, which is the index returned.
pub proof fn lemma_focus_up_highlights_origin(focus: Focus)
    requires
        focus.path.len() > 1,
        focus.current() is Some,
    ensures
        focus.focused_up().path == focus.path.drop_last(),
        focus.focused_up().tree == focus.selected().tree,
        focus.popped_index() == focus.path.last(),
{
    let hl = WStyleOpt::highlight();
    let n = focus.current()->Some_0;
    let above = focus.path.drop_last();
    let last = focus.path.last();
    assert(above.push(last) =~= focus.path);
    lemma_at_push(focus.tree, above, last);
    let parent = focus.tree.at(above)->Some_0;
    lemma_with_subtree_push(focus.tree, above, last, n.cleared());
    lemma_with_subtree_push(focus.tree, above, last, n.overridden(hl));
    let parent_cleared = parent.with_child(last as int, n.cleared());
    lemma_at_with_subtree(focus.tree, above, parent_cleared);
    lemma_override_replaces(n, hl, hl);
    lemma_with_subtree_twice(
        focus.tree,
        above,
        parent_cleared,
        parent_cleared.with_child(last as int, n.cleared().overridden(hl)),
    );
}

/// A move down into a slot that holds a child leaves the highlight in one
/// place below the current node: its other child carries no override, and of
/// the child entered either child 0 carries the highlight and nothing else
/// does, or, where the child entered is a leaf, that leaf carries it. Nothing
/// outside the current node changes.
pub proof fn lemma_focus_down_highlights_one(focus: Focus, index: u8)
    requires
        focus.current() matches Some(n) && n.child(index as int) is Some,
    ensures
        ({
            let hl = WStyleOpt::highlight();
            let n = focus.current()->Some_0;
            let c = n.child(index as int)->Some_0;
            let lit = match c.child(0) {
                Some(first) => c.cleared().with_child(0, first.overridden(hl)),
                None => c.overridden(hl),
            };
            let after = focus.focused_down(index);
            &&& after.path == focus.path.push(index)
            &&& after.current() == Some(lit)
            &&& after.tree == focus.tree.with_subtree(
                focus.path,
                n.cleared().with_child(index as int, lit),
            )
        }),
{
    let hl = WStyleOpt::highlight();
    let n = focus.current()->Some_0;
    let c = n.child(index as int)->Some_0;
    let cleared = focus.unselected();
    lemma_unselected_keeps_shape(focus, index as int);
    lemma_at_with_subtree(focus.tree, focus.path, n.cleared());
    lemma_override_keeps_children(n, hl, index as int);
    lemma_override_keeps_children(c, hl, 0);
    lemma_override_replaces(c, hl, hl);
    let entered = cleared.pushed(index);
    lemma_pushed_current(cleared, index);
    let lit = match c.child(0) {
        Some(first) => {
            lemma_override_replaces(first, hl, hl);
            c.cleared().with_child(0, first.overridden(hl))
        },
        None => c.overridden(hl),
    };
    lemma_at_with_subtree(entered.tree, entered.path, lit);
    lemma_with_subtree_push(cleared.tree, focus.path, index, lit);
    lemma_with_subtree_twice(
        focus.tree,
        focus.path,
        n.cleared(),
        n.cleared().with_child(index as int, lit),
    );
}

/// A reset of a tree under a root leaves the root over a single fresh leaf,
/// with the path leading to that leaf, whatever the tree and the path were.
pub proof fn lemma_reset_under_root(focus: Focus)
    requires
        focus.tree is Root,
    ensures
        focus.reset().tree == Tree::Root(Box::new(Tree::blank_leaf())),
        focus.reset().path.len() == 1,
        focus.reset().anchored(),
        focus.reset().current() == Some(Tree::blank_leaf()),
{
    let after = focus.reset();
    assert(after.path.drop_first() =~= Seq::<u8>::empty());
    assert(Tree::blank_leaf().at(Seq::<u8>::empty()) == Some(Tree::blank_leaf()));
}

/// A step pushed on a path leads to the child, in that slot, of the node
/// that the path led to.
pub proof fn lemma_pushed_current(focus: Focus, index: u8)
    ensures
        focus.pushed(index).current() == match focus.current() {
            Some(n) => n.child(index as int),
            None => None,
        },
{
    lemma_at_push(focus.tree, focus.path, index);
}

/// A move down makes the path one step longer exactly where the current
/// node has child slots, and leaves it as it is otherwise. Where the slot
/// holds a child, the path leads to a node afterwards: the child was entered.
pub proof fn lemma_focus_down_path(focus: Focus, index: u8)
    ensures
        focus.focused_down(index).path == if focus.current_has_children() {
            focus.path.push(index)
        } else {
            focus.path
        },
        focus.current() matches Some(n) && n.child(index as int) is Some ==> focus.focused_down(
            index,
        ).current() is Some,
{
    lemma_unselected_keeps_shape(focus, index as int);
    let cleared = focus.unselected();
    if let Some(n) = focus.current() {
        if n.child(index as int) is Some {
            let entered = cleared.pushed(index);
            lemma_pushed_current(cleared, index);
            let child = entered.current()->Some_0;
            lemma_child_selected_keeps_shape(entered, 0, 0);
            lemma_at_with_subtree(
                entered.tree,
                entered.path,
                child.overridden(WStyleOpt::highlight()),
            );
        }
    }
}

/// The node that a resolved focus leads to is made of splits and leaves
/// alone. Where the path has more than one step, its last step names slot 0
/// or 1 and the path without that step is resolved too.
pub proof fn lemma_resolved_current(focus: Focus)
    requires
        focus.resolved(),
    ensures
        focus.current()->Some_0.rootless(),
        focus.path.len() > 1 ==> focus.path.last() <= 1 && (Focus {
            path: focus.path.drop_last(),
            tree: focus.tree,
        }).resolved(),
{
    let below = *focus.tree->Root_0;
    let rest = focus.path.drop_first();
    lemma_rootless_at(below, rest);
    if focus.path.len() > 1 {
        assert(rest.last() == focus.path.last());
        assert(focus.path.drop_last().drop_first() =~= rest.drop_last());
        assert(focus.path.drop_last()[0] == focus.path[0]);
    }
}

/// A resolved focus stays resolved where a node made of splits and leaves
/// is put in place of the current node, and leads to that node.
pub proof fn lemma_resolved_with_current(focus: Focus, node: Tree)
    requires
        focus.resolved(),
        node.rootless(),
    ensures
        focus.with_current(node).resolved(),
        focus.with_current(node).current() == Some(node),
{
    let below = *focus.tree->Root_0;
    lemma_rootless_with_subtree(below, focus.path.drop_first(), node);
    lemma_at_with_subtree(focus.tree, focus.path, node);
}

/// Setting and clearing the highlight, on the current node or on a child of
/// it, and putting a node made of splits and leaves into a slot of the
/// current node keep a resolved focus resolved.
pub proof fn lemma_styling_keeps_resolved(focus: Focus, index: int, node: Tree)
    requires
        focus.resolved(),
    ensures
        focus.selected().resolved(),
        focus.unselected().resolved(),
        focus.child_selected(index).resolved(),
        focus.child_unselected(index).resolved(),
        node.rootless() ==> focus.child_replaced(index, node).resolved(),
{
    let hl = WStyleOpt::highlight();
    let n = focus.current()->Some_0;
    lemma_resolved_current(focus);
    lemma_rootless_kept(n, hl, index, node);
    lemma_resolved_with_current(focus, n.overridden(hl));
    lemma_resolved_with_current(focus, n.cleared());
    if let Some(c) = n.child(index) {
        lemma_rootless_kept(c, hl, index, node);
        lemma_rootless_kept(n, hl, index, c.overridden(hl));
        lemma_rootless_kept(n, hl, index, c.cleared());
        lemma_resolved_with_current(focus, n.with_child(index, c.overridden(hl)));
        lemma_resolved_with_current(focus, n.with_child(index, c.cleared()));
    }
    if node.rootless() {
        lemma_resolved_with_current(focus, n.with_child(index, node));
    }
}

/// The moves keep a resolved focus resolved: a move down into slot 0 or 1, a
/// move up, a shift, and a reset. A move up returns slot 0 or 1, and a shift
/// finds a sibling in slot 0 or 1 only.
pub proof fn lemma_moves_keep_resolved(focus: Focus, index: u8, left: bool)
    requires
        focus.resolved(),
    ensures
        index <= 1 ==> focus.focused_down(index).resolved(),
        focus.focused_up().resolved(),
        focus.popped_index() <= 1,
        focus.focus_shifted(index, left).resolved(),
        focus.can_shift(index, left) ==> shift_target(index, left) <= 1,
        focus.reset().resolved(),
{
    let cleared = focus.unselected();
    lemma_styling_keeps_resolved(focus, 0, Tree::blank_leaf());
    lemma_resolved_current(focus);
    lemma_resolved_current(cleared);
    // down
    if index <= 1 {
        if cleared.current_has_children() {
            let entered = cleared.pushed(index);
            lemma_pushed_current(cleared, index);
            lemma_styling_keeps_resolved(entered, 0, Tree::blank_leaf());
        } else {
            lemma_styling_keeps_resolved(cleared, 0, Tree::blank_leaf());
        }
    }
    // up
    if focus.path.len() > 1 {
        let above = Focus { path: focus.path.drop_last(), tree: cleared.tree };
        lemma_styling_keeps_resolved(above, focus.popped_index() as int, Tree::blank_leaf());
    } else {
        lemma_styling_keeps_resolved(cleared, focus.popped_index() as int, Tree::blank_leaf());
    }
    // shift
    lemma_styling_keeps_resolved(cleared, shift_target(index, left), Tree::blank_leaf());
    // reset
    let fresh = focus.reset();
    assert(fresh.path.drop_first() =~= Seq::<u8>::empty());
    assert(Tree::blank_leaf().at(Seq::<u8>::empty()) == Some(Tree::blank_leaf()));
}

/// Clearing every override in the tree keeps a resolved focus resolved.
pub proof fn lemma_clearing_keeps_resolved(focus: Focus)
    requires
        focus.resolved(),
    ensures
        (Focus { path: focus.path, tree: focus.tree.cleared() }).resolved(),
{
    let below = *focus.tree->Root_0;
    lemma_rootless_kept(below, WStyleOpt::empty(), 0, below);
    lemma_cleared_at(focus.tree, focus.path);
}

} // verus!
