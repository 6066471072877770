use pane_layout::editor::InputMode;
use pane_layout::geometry::Ratio;
use pane_layout::stack::ContainerStack;
use pane_layout::style::WStyleOpt;
use pane_layout::tree::{
    BasicContainer, Container, HSplitContainer, RootContainer, VSplitContainer,
};
use pane_layout::widget::BasicWidget;

fn half() -> Ratio {
    Ratio::new(1, 2).unwrap()
}

fn named(title: &str) -> Container {
    Container::Leaf(BasicContainer::new(BasicWidget::new(title.to_string(), String::new())))
}

fn lit(title: &str) -> Container {
    let mut l = named(title);
    l.set_override_style(WStyleOpt::selected());
    l
}

fn h(a: Container, b: Container) -> Container {
    Container::HSplit(HSplitContainer::new(a, b, half()))
}

fn v(a: Container, b: Container) -> Container {
    Container::VSplit(VSplitContainer::new(a, b, half()))
}

fn under_root(child: Container) -> Container {
    let mut root = RootContainer::new();
    root.set_child(0, child);
    root.into_dyn_container()
}

/// Root -> HSplit( VSplit(a, b), c )
fn grid() -> Container {
    under_root(h(v(named("a"), named("b")), named("c")))
}

fn stack_at(root: Container, path: &[u8]) -> ContainerStack {
    let mut s = ContainerStack::new(root);
    for step in path {
        s.push(*step);
    }
    s
}

#[test]
fn new_stack_points_at_the_root_itself() {
    let s = ContainerStack::new(grid());
    assert!(s.stack.is_empty());
    assert_eq!(s.root, grid());
    assert_eq!(s.current(), Some(&grid()));
    assert!(s.current_has_children());
}

#[test]
fn push_extends_the_path_unchecked() {
    let mut s = ContainerStack::new(grid());
    s.push(0);
    assert_eq!(s.stack, [0]);
    s.push(9);
    assert_eq!(s.stack, [0, 9]);
    assert_eq!(s.root, grid());
    assert!(s.current().is_none());
}

#[test]
fn current_resolves_the_path_step_by_step() {
    assert_eq!(stack_at(grid(), &[0]).current(), Some(&h(v(named("a"), named("b")), named("c"))));
    assert_eq!(stack_at(grid(), &[0, 0]).current(), Some(&v(named("a"), named("b"))));
    assert_eq!(stack_at(grid(), &[0, 0, 1]).current(), Some(&named("b")));
    assert_eq!(stack_at(grid(), &[0, 1]).current(), Some(&named("c")));
}

#[test]
fn current_is_absent_for_a_stale_path() {
    assert!(stack_at(grid(), &[1]).current().is_none());
    assert!(stack_at(grid(), &[0, 2]).current().is_none());
    assert!(stack_at(grid(), &[0, 1, 0]).current().is_none());
    assert!(stack_at(grid(), &[0, 0, 1, 0, 0]).current().is_none());
    assert!(stack_at(grid(), &[1]).current_mut().is_none());
    assert!(!stack_at(grid(), &[1]).current_has_children());
}

#[test]
fn current_has_children_tells_leaves_from_the_rest() {
    assert!(stack_at(grid(), &[0]).current_has_children());
    assert!(stack_at(grid(), &[0, 0]).current_has_children());
    assert!(!stack_at(grid(), &[0, 1]).current_has_children());
    assert!(!stack_at(grid(), &[0, 0, 0]).current_has_children());
}

#[test]
fn current_mut_changes_the_tree_in_place() {
    let mut s = stack_at(grid(), &[0, 0]);
    s.current_mut().unwrap().set_child(1, named("z"));
    assert_eq!(s.root, under_root(h(v(named("a"), named("z")), named("c"))));
    assert_eq!(s.stack, [0, 0]);
}

#[test]
fn selected_style_covers_the_current_subtree_only() {
    let mut s = stack_at(grid(), &[0, 0]);
    s.set_selected_style();
    assert_eq!(s.root, under_root(h(v(lit("a"), lit("b")), named("c"))));
    s.unset_selected_style();
    assert_eq!(s.root, grid());
    let mut s = stack_at(grid(), &[0, 1]);
    s.set_selected_style();
    assert_eq!(s.root, under_root(h(v(named("a"), named("b")), lit("c"))));
}

#[test]
fn child_selected_style_covers_one_child_of_the_current_node() {
    let mut s = stack_at(grid(), &[0]);
    s.set_child_selected_style(1);
    assert_eq!(s.root, under_root(h(v(named("a"), named("b")), lit("c"))));
    s.set_child_selected_style(0);
    assert_eq!(s.root, under_root(h(v(lit("a"), lit("b")), lit("c"))));
    s.unset_child_selected_style(1);
    assert_eq!(s.root, under_root(h(v(lit("a"), lit("b")), named("c"))));
    s.unset_child_selected_style(0);
    assert_eq!(s.root, grid());
    assert_eq!(s.stack, [0]);
}

#[test]
fn styling_a_missing_node_is_a_silent_no_op() {
    let mut s = stack_at(grid(), &[0]);
    s.set_child_selected_style(2);
    s.unset_child_selected_style(7);
    assert_eq!(s.root, grid());
    let mut s = stack_at(grid(), &[0, 1]);
    s.set_child_selected_style(0);
    assert_eq!(s.root, grid());
    let mut s = stack_at(grid(), &[3, 1]);
    s.set_selected_style();
    s.unset_selected_style();
    s.set_child_selected_style(0);
    s.unset_child_selected_style(0);
    assert_eq!(s.root, grid());
    assert_eq!(s.stack, [3, 1]);
}

#[test]
fn focus_down_enters_a_child_and_highlights_below() {
    let mut s = stack_at(grid(), &[0]);
    s.set_child_selected_style(0);
    s.focus_down(0);
    assert_eq!(s.stack, [0, 0]);
    // the new current node has children: its child 0 is highlighted
    assert_eq!(s.root, under_root(h(v(lit("a"), named("b")), named("c"))));
    s.focus_down(1);
    assert_eq!(s.stack, [0, 0, 1]);
    // the new current node is a leaf: it is highlighted itself
    assert_eq!(s.root, under_root(h(v(named("a"), lit("b")), named("c"))));
}

#[test]
fn focus_down_from_a_leaf_does_not_push() {
    let mut s = stack_at(grid(), &[0, 1]);
    s.focus_down(0);
    assert_eq!(s.stack, [0, 1]);
    assert_eq!(s.root, under_root(h(v(named("a"), named("b")), lit("c"))));
    s.focus_down(5);
    assert_eq!(s.stack, [0, 1]);
    assert_eq!(s.root, under_root(h(v(named("a"), named("b")), lit("c"))));
}

#[test]
fn focus_down_does_not_check_the_index() {
    let mut s = stack_at(grid(), &[0]);
    s.focus_down(4);
    assert_eq!(s.stack, [0, 4]);
    assert!(s.current().is_none());
    assert_eq!(s.root, grid());
    // a stale path is no fatal condition: further moves are silent no-ops
    s.focus_down(0);
    assert_eq!(s.stack, [0, 4]);
    assert!(!s.focus_shift(0, false));
    assert_eq!(s.root, grid());
    // and a move up leads back to a valid node
    assert_eq!(s.focus_up(), 4);
    assert_eq!(s.stack, [0]);
    assert_eq!(s.root, grid());
    assert!(s.current().is_some());
}

#[test]
fn focus_down_on_a_stale_path_changes_nothing() {
    let mut s = stack_at(grid(), &[2]);
    s.focus_down(0);
    assert_eq!(s.stack, [2]);
    assert_eq!(s.root, grid());
}

#[test]
fn focus_up_pops_and_returns_the_last_step() {
    let mut s = stack_at(grid(), &[0, 0, 1]);
    s.set_selected_style();
    assert_eq!(s.focus_up(), 1);
    assert_eq!(s.stack, [0, 0]);
    // the child that the path came from is highlighted
    assert_eq!(s.root, under_root(h(v(named("a"), lit("b")), named("c"))));
    assert_eq!(s.focus_up(), 0);
    assert_eq!(s.stack, [0]);
    assert_eq!(s.root, under_root(h(v(lit("a"), lit("b")), named("c"))));
}

#[test]
fn focus_up_at_path_length_one_keeps_the_path_and_returns_zero() {
    let mut s = stack_at(grid(), &[0]);
    assert_eq!(s.focus_up(), 0);
    assert_eq!(s.stack, [0]);
    assert_eq!(s.focus_up(), 0);
    assert_eq!(s.focus_up(), 0);
    assert_eq!(s.stack, [0]);
    assert_eq!(s.root, under_root(h(v(lit("a"), lit("b")), named("c"))));
}

#[test]
fn focus_up_never_shortens_the_path_below_one_step() {
    let mut s = stack_at(grid(), &[0, 1, 0, 1, 1]);
    let mut returned = Vec::new();
    for _ in 0..10 {
        returned.push(s.focus_up());
        assert!(s.stack.len() >= 1);
    }
    assert_eq!(returned, [1, 1, 0, 1, 0, 0, 0, 0, 0, 0]);
    assert_eq!(s.stack, [0]);
}

#[test]
fn focus_up_on_an_empty_path_keeps_it_empty() {
    let mut s = ContainerStack::new(grid());
    assert_eq!(s.focus_up(), 0);
    assert!(s.stack.is_empty());
    assert_eq!(s.root, under_root(h(v(lit("a"), lit("b")), lit("c"))));
}

#[test]
fn focus_shift_right_finds_the_second_sibling() {
    let mut s = stack_at(grid(), &[0]);
    s.set_child_selected_style(0);
    assert!(s.focus_shift(0, false));
    assert_eq!(s.stack, [0]);
    assert_eq!(s.root, under_root(h(v(named("a"), named("b")), lit("c"))));
}

#[test]
fn focus_shift_right_past_the_last_sibling_fails() {
    let mut s = stack_at(grid(), &[0]);
    s.set_child_selected_style(1);
    assert!(!s.focus_shift(1, false));
    assert_eq!(s.stack, [0]);
    // the highlight falls back on the current node itself
    assert_eq!(s.root, under_root(h(v(lit("a"), lit("b")), lit("c"))));
    assert!(!s.focus_shift(200, false));
    assert!(!s.focus_shift(255, false));
}

#[test]
fn focus_shift_left_stops_at_slot_zero() {
    let mut s = stack_at(grid(), &[0]);
    assert!(s.focus_shift(1, true));
    assert_eq!(s.root, under_root(h(v(lit("a"), lit("b")), named("c"))));
    assert!(s.focus_shift(0, true));
    assert_eq!(s.root, under_root(h(v(lit("a"), lit("b")), named("c"))));
    assert!(s.focus_shift(2, true));
    assert_eq!(s.root, under_root(h(v(named("a"), named("b")), lit("c"))));
    assert!(!s.focus_shift(3, true));
}

#[test]
fn focus_shift_on_a_leaf_finds_no_sibling() {
    let mut s = stack_at(grid(), &[0, 1]);
    assert!(!s.focus_shift(0, false));
    assert!(!s.focus_shift(0, true));
    assert_eq!(s.root, under_root(h(v(named("a"), named("b")), lit("c"))));
    assert_eq!(s.stack, [0, 1]);
}

#[test]
fn focus_shift_under_the_root_has_one_slot_only() {
    let mut s = ContainerStack::new(grid());
    assert!(!s.focus_shift(0, false));
    assert!(s.focus_shift(0, true));
    assert!(s.focus_shift(1, true));
    assert!(s.stack.is_empty());
}

#[test]
fn the_highlight_is_never_left_in_two_places_by_a_move() {
    let mut s = stack_at(grid(), &[0]);
    s.set_child_selected_style(0);
    assert!(s.focus_shift(0, false));
    assert_eq!(s.root, under_root(h(v(named("a"), named("b")), lit("c"))));
    assert!(s.focus_shift(1, true));
    assert_eq!(s.root, under_root(h(v(lit("a"), lit("b")), named("c"))));
    s.focus_down(0);
    assert_eq!(s.root, under_root(h(v(lit("a"), named("b")), named("c"))));
    assert!(s.focus_shift(0, false));
    assert_eq!(s.root, under_root(h(v(named("a"), lit("b")), named("c"))));
    assert_eq!(s.focus_up(), 0);
    assert_eq!(s.root, under_root(h(v(lit("a"), lit("b")), named("c"))));
}

#[test]
fn replace_child_puts_a_node_below_the_current_one() {
    let mut s = stack_at(grid(), &[0, 0]);
    s.replace_child(0, h(named("x"), named("y")));
    assert_eq!(s.root, under_root(h(v(h(named("x"), named("y")), named("b")), named("c"))));
    assert_eq!(s.stack, [0, 0]);
    s.replace_child(2, named("q"));
    assert_eq!(s.root, under_root(h(v(h(named("x"), named("y")), named("b")), named("c"))));
    let mut s = stack_at(grid(), &[5]);
    s.replace_child(0, named("q"));
    assert_eq!(s.root, grid());
}

#[test]
fn reset_leaves_a_single_empty_leaf_and_a_path_of_one_step() {
    let mut s = stack_at(grid(), &[0, 0, 1]);
    s.set_selected_style();
    s.reset();
    assert_eq!(s.root, RootContainer::new().into_dyn_container());
    assert_eq!(s.stack, [0]);
    assert_eq!(s.current(), Some(&Container::Leaf(BasicContainer::default())));
    let mut s = ContainerStack::new(grid());
    s.reset();
    assert_eq!(s.stack, [0]);
    assert_eq!(s.root, RootContainer::new().into_dyn_container());
}

#[test]
fn stack_can_be_taken_out_of_any_mode() {
    let s: ContainerStack = InputMode::Select(stack_at(grid(), &[0, 1])).into();
    assert_eq!(s, stack_at(grid(), &[0, 1]));
    let s = ContainerStack::from(InputMode::Normal(stack_at(grid(), &[0])));
    assert_eq!(s.stack, [0]);
    let s = ContainerStack::from(InputMode::Insert(stack_at(grid(), &[])));
    assert!(s.stack.is_empty());
    assert_eq!(s.root, grid());
}
