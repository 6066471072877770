use pane_layout::editor::{new_node, Action, Editor, InputMode, Key, Mode, ThingEvent};
use pane_layout::geometry::{Ratio, Rect};
use pane_layout::screen::{
    menu_area, menu_entry_area, menu_entry_style, menu_label, status_area, status_text, tree_area,
};
use pane_layout::stack::ContainerStack;
use pane_layout::style::{Color, Style, WStyleOpt};
use pane_layout::tree::{
    BasicContainer, Container, HSplitContainer, RootContainer, VSplitContainer,
};
use pane_layout::widget::BasicWidget;

const ENTER: Key = Key::Char('\n');

fn half() -> Ratio {
    Ratio::new(1, 2).unwrap()
}

fn pane(title: &str, text: &str) -> Container {
    Container::Leaf(BasicContainer::new(BasicWidget::new(title.to_string(), text.to_string())))
}

fn blank() -> Container {
    Container::Leaf(BasicContainer::default())
}

fn marked(mut node: Container) -> Container {
    node.set_override_style(WStyleOpt::selected());
    node
}

fn hs(a: Container, b: Container) -> Container {
    Container::HSplit(HSplitContainer::new(a, b, half()))
}

fn vs(a: Container, b: Container) -> Container {
    Container::VSplit(VSplitContainer::new(a, b, half()))
}

fn rooted(child: Container) -> Container {
    let mut root = RootContainer::new();
    root.set_child(0, child);
    root.into_dyn_container()
}

fn press(editor: Editor, keys: &[Key]) -> Editor {
    let mut editor = editor;
    for key in keys {
        let (next, quit) = editor.handle_key(*key);
        assert!(!quit);
        editor = next;
    }
    editor
}

fn tree(editor: &Editor) -> &Container {
    &editor.input_mode.stack().root
}

fn path(editor: &Editor) -> &[u8] {
    &editor.input_mode.stack().stack
}

/// An editor in Select mode over `root` with the given path and selection
/// and no highlight anywhere.
fn selecting(root: Container, steps: &[u8], selection: u8) -> Editor {
    let mut stack = ContainerStack::new(root);
    for step in steps {
        stack.push(*step);
    }
    Editor { input_mode: InputMode::Select(stack), selection_index: selection, menu_selection_index: 0 }
}

#[test]
fn new_editor_starts_in_normal_mode_at_the_child_of_the_root() {
    let e = Editor::new(rooted(pane("Hello", "Lorem Ipsum")));
    assert_eq!(e.input_mode.mode(), Mode::Normal);
    assert_eq!(path(&e), [0]);
    assert_eq!(e.selection_index, 0);
    assert_eq!(e.menu_selection_index, 0);
    assert_eq!(tree(&e), &rooted(pane("Hello", "Lorem Ipsum")));
}

#[test]
fn quit_key_ends_the_run_in_every_mode() {
    let (e, quit) = Editor::new(rooted(blank())).handle_key(Key::Char('q'));
    assert!(quit);
    assert_eq!(e.input_mode.mode(), Mode::Normal);
    let e = press(Editor::new(rooted(blank())), &[Key::Char('i')]);
    let (e, quit) = e.handle_key(Key::Char('q'));
    assert!(quit);
    assert_eq!(e.input_mode.mode(), Mode::Select);
    let e = press(Editor::new(rooted(blank())), &[Key::Char('i'), ENTER]);
    let (e, quit) = e.handle_key(Key::Char('q'));
    assert!(quit);
    assert_eq!(e.input_mode.mode(), Mode::Insert);
    let (_, action) = Editor::new(rooted(blank())).handle_event(ThingEvent::Key(Key::Char('q')));
    assert_eq!(action, Action::Quit);
}

#[test]
fn tick_asks_for_a_redraw_and_changes_nothing() {
    let e = press(Editor::new(rooted(hs(pane("a", ""), pane("b", "")))), &[Key::Char('i'), Key::Right]);
    let same = press(Editor::new(rooted(hs(pane("a", ""), pane("b", "")))), &[Key::Char('i'), Key::Right]);
    let (after, action) = e.handle_event(ThingEvent::Tick);
    assert_eq!(action, Action::Redraw);
    assert_eq!(after, same);
}

#[test]
fn key_events_go_on_unless_they_quit() {
    let (e, action) = Editor::new(rooted(blank())).handle_event(ThingEvent::Key(Key::Char('i')));
    assert_eq!(action, Action::Continue);
    assert_eq!(e.input_mode.mode(), Mode::Select);
}

#[test]
fn normal_mode_ignores_every_key_but_i_and_q() {
    for key in [Key::Up, Key::Down, Key::Left, Key::Right, Key::Delete, ENTER, Key::Char('c'), Key::Char('r'), Key::Esc, Key::F(1)] {
        let e = press(Editor::new(rooted(hs(pane("a", ""), pane("b", "")))), &[key]);
        assert_eq!(e, Editor::new(rooted(hs(pane("a", ""), pane("b", "")))));
    }
}

#[test]
fn i_enters_select_mode_and_highlights_the_current_node() {
    let e = press(Editor::new(rooted(hs(pane("a", ""), pane("b", "")))), &[Key::Char('i')]);
    assert_eq!(e.input_mode.mode(), Mode::Select);
    assert_eq!(path(&e), [0]);
    assert_eq!(tree(&e), &rooted(marked(hs(pane("a", ""), pane("b", "")))));
    assert_eq!(e.selection_index, 0);
}

#[test]
fn c_leaves_select_mode_and_clears_every_override() {
    let e = press(Editor::new(rooted(hs(pane("a", ""), pane("b", "")))), &[Key::Char('i'), Key::Right, Key::Char('c')]);
    assert_eq!(e.input_mode.mode(), Mode::Normal);
    assert_eq!(tree(&e), &rooted(hs(pane("a", ""), pane("b", ""))));
    assert_eq!(path(&e), [0]);
    assert_eq!(e.selection_index, 1);
}

#[test]
fn every_select_key_first_highlights_the_selected_child() {
    let e = selecting(rooted(hs(pane("a", ""), pane("b", ""))), &[0], 1);
    let e = press(e, &[Key::Char('x')]);
    assert_eq!(e.input_mode.mode(), Mode::Select);
    assert_eq!(tree(&e), &rooted(hs(pane("a", ""), marked(pane("b", "")))));
    assert_eq!(e.selection_index, 1);
    assert_eq!(path(&e), [0]);
}

#[test]
fn right_moves_the_selection_to_an_existing_sibling() {
    let e = selecting(rooted(hs(pane("a", ""), pane("b", ""))), &[0], 0);
    let e = press(e, &[Key::Right]);
    assert_eq!(e.selection_index, 1);
    assert_eq!(tree(&e), &rooted(hs(pane("a", ""), marked(pane("b", "")))));
    assert_eq!(path(&e), [0]);
}

#[test]
fn right_past_the_last_sibling_keeps_the_selection() {
    let e = selecting(rooted(hs(pane("a", ""), pane("b", ""))), &[0], 1);
    let e = press(e, &[Key::Right]);
    assert_eq!(e.selection_index, 1);
    assert_eq!(tree(&e), &rooted(marked(hs(pane("a", ""), pane("b", "")))));
    let e = press(e, &[Key::Right, Key::Right]);
    assert_eq!(e.selection_index, 1);
    assert_eq!(path(&e), [0]);
}

#[test]
fn left_moves_the_selection_back_and_stops_at_zero() {
    let e = selecting(rooted(hs(pane("a", ""), pane("b", ""))), &[0], 1);
    let e = press(e, &[Key::Left]);
    assert_eq!(e.selection_index, 0);
    assert_eq!(tree(&e), &rooted(hs(marked(pane("a", "")), pane("b", ""))));
    let e = press(e, &[Key::Left]);
    assert_eq!(e.selection_index, 0);
    assert_eq!(tree(&e), &rooted(hs(marked(pane("a", "")), pane("b", ""))));
}

#[test]
fn shift_on_a_leaf_keeps_the_selection() {
    let e = selecting(rooted(pane("a", "")), &[0], 0);
    let e = press(e, &[Key::Right]);
    assert_eq!(e.selection_index, 0);
    let e = press(e, &[Key::Left]);
    assert_eq!(e.selection_index, 0);
    assert_eq!(tree(&e), &rooted(marked(pane("a", ""))));
}

#[test]
fn selection_at_the_largest_index_does_not_wrap() {
    let e = selecting(rooted(hs(pane("a", ""), pane("b", ""))), &[0], 255);
    let e = press(e, &[Key::Right]);
    assert_eq!(e.selection_index, 255);
    let e = press(e, &[Key::Left]);
    assert_eq!(e.selection_index, 255);
}

#[test]
fn down_enters_the_selected_child_and_resets_the_selection() {
    let e = selecting(rooted(hs(pane("a", ""), vs(pane("b", ""), pane("c", "")))), &[0], 1);
    let e = press(e, &[Key::Down]);
    assert_eq!(path(&e), [0, 1]);
    assert_eq!(e.selection_index, 0);
    assert_eq!(tree(&e), &rooted(hs(pane("a", ""), vs(marked(pane("b", "")), pane("c", "")))));
    let e = press(e, &[Key::Right, Key::Down]);
    assert_eq!(path(&e), [0, 1, 1]);
    assert_eq!(e.selection_index, 0);
    assert_eq!(tree(&e), &rooted(hs(pane("a", ""), vs(pane("b", ""), marked(pane("c", ""))))));
    // a leaf has no child slots to enter
    let e = press(e, &[Key::Down]);
    assert_eq!(path(&e), [0, 1, 1]);
}

#[test]
fn up_returns_to_the_parent_and_selects_where_it_came_from() {
    let e = selecting(rooted(hs(pane("a", ""), vs(pane("b", ""), pane("c", "")))), &[0, 1, 1], 0);
    let e = press(e, &[Key::Up]);
    assert_eq!(path(&e), [0, 1]);
    assert_eq!(e.selection_index, 1);
    assert_eq!(tree(&e), &rooted(hs(pane("a", ""), vs(pane("b", ""), marked(pane("c", ""))))));
    let e = press(e, &[Key::Up]);
    assert_eq!(path(&e), [0]);
    assert_eq!(e.selection_index, 1);
    let e = press(e, &[Key::Up]);
    assert_eq!(path(&e), [0]);
    assert_eq!(e.selection_index, 0);
    let e = press(e, &[Key::Up, Key::Up]);
    assert_eq!(path(&e), [0]);
    assert_eq!(e.selection_index, 0);
}

#[test]
fn delete_replaces_the_selected_child_with_an_empty_leaf() {
    // in Select mode with a 2-deep split tree focused at the root's split
    let e = selecting(rooted(hs(pane("a", "1"), hs(pane("b", "2"), pane("c", "3")))), &[0], 1);
    let e = press(e, &[Key::Delete]);
    assert_eq!(tree(&e), &rooted(hs(pane("a", "1"), blank())));
    assert_eq!(e.input_mode.mode(), Mode::Select);
    assert_eq!(e.selection_index, 1);
    assert_eq!(path(&e), [0]);
}

#[test]
fn delete_leaves_the_other_child_untouched() {
    let e = selecting(rooted(hs(hs(pane("a", "1"), pane("d", "4")), pane("b", "2"))), &[0], 1);
    let e = press(e, &[Key::Delete]);
    assert_eq!(tree(&e).get_child(0).unwrap().get_child(0), Some(&hs(pane("a", "1"), pane("d", "4"))));
    assert_eq!(tree(&e).get_child(0).unwrap().get_child(1), Some(&blank()));
    let e = selecting(rooted(vs(pane("a", "1"), pane("b", "2"))), &[0], 0);
    let e = press(e, &[Key::Delete]);
    assert_eq!(tree(&e), &rooted(vs(blank(), pane("b", "2"))));
}

#[test]
fn delete_without_such_a_child_changes_nothing() {
    let e = selecting(rooted(hs(pane("a", "1"), pane("b", "2"))), &[0], 2);
    let e = press(e, &[Key::Delete]);
    assert_eq!(tree(&e), &rooted(hs(pane("a", "1"), pane("b", "2"))));
    let e = selecting(rooted(hs(pane("a", "1"), pane("b", "2"))), &[0, 3], 0);
    let e = press(e, &[Key::Delete]);
    assert_eq!(tree(&e), &rooted(hs(pane("a", "1"), pane("b", "2"))));
    assert_eq!(path(&e), [0, 3]);
}

#[test]
fn delete_on_a_focused_leaf_empties_it() {
    let e = selecting(rooted(hs(pane("a", "1"), pane("b", "2"))), &[0, 1], 0);
    let e = press(e, &[Key::Delete]);
    assert_eq!(tree(&e), &rooted(hs(pane("a", "1"), blank())));
}

#[test]
fn r_resets_the_tree_to_one_empty_leaf_and_the_path_to_one_step() {
    let deep = || rooted(hs(pane("a", ""), vs(pane("b", ""), hs(pane("c", ""), pane("d", "")))));
    for steps in [&[0u8][..], &[0, 1], &[0, 1, 1], &[0, 1, 1, 0]] {
        let e = press(selecting(deep(), steps, 1), &[Key::Char('r')]);
        assert_eq!(tree(&e), &rooted(blank()));
        assert_eq!(path(&e), [0]);
        assert_eq!(e.input_mode.mode(), Mode::Select);
        assert_eq!(tree(&e).depth(), 1);
    }
    // at root depth, after entering Select mode by key
    let e = press(Editor::new(deep()), &[Key::Char('i'), Key::Char('r')]);
    assert_eq!(tree(&e), &rooted(blank()));
    assert_eq!(path(&e), [0]);
}

#[test]
fn enter_opens_the_insert_menu_at_its_first_entry() {
    let mut e = selecting(rooted(hs(pane("a", ""), pane("b", ""))), &[0], 1);
    e.menu_selection_index = 2;
    let e = press(e, &[ENTER]);
    assert_eq!(e.input_mode.mode(), Mode::Insert);
    assert_eq!(e.menu_selection_index, 0);
    assert_eq!(e.selection_index, 1);
    assert_eq!(path(&e), [0]);
    assert_eq!(tree(&e), &rooted(hs(pane("a", ""), marked(pane("b", "")))));
}

#[test]
fn menu_moves_without_wrapping_around() {
    let e = press(selecting(rooted(blank()), &[0], 0), &[ENTER]);
    let e = press(e, &[Key::Up]);
    assert_eq!(e.menu_selection_index, 0);
    let e = press(e, &[Key::Down]);
    assert_eq!(e.menu_selection_index, 1);
    let e = press(e, &[Key::Down, Key::Down]);
    assert_eq!(e.menu_selection_index, 3);
    let e = press(e, &[Key::Up]);
    assert_eq!(e.menu_selection_index, 2);
    let mut e = e;
    e.menu_selection_index = 254;
    let e = press(e, &[Key::Down, Key::Down, Key::Down]);
    assert_eq!(e.menu_selection_index, 255);
    assert_eq!(e.input_mode.mode(), Mode::Insert);
}

#[test]
fn c_leaves_insert_mode_and_selects_the_first_child() {
    let e = press(selecting(rooted(hs(pane("a", ""), pane("b", ""))), &[0], 1), &[ENTER, Key::Down, Key::Char('c')]);
    assert_eq!(e.input_mode.mode(), Mode::Select);
    assert_eq!(e.selection_index, 0);
    assert_eq!(e.menu_selection_index, 1);
    assert_eq!(path(&e), [0]);
}

#[test]
fn insert_mode_ignores_unbound_keys() {
    let e = press(selecting(rooted(hs(pane("a", ""), pane("b", ""))), &[0], 1), &[ENTER]);
    let same = press(selecting(rooted(hs(pane("a", ""), pane("b", ""))), &[0], 1), &[ENTER]);
    let e = press(e, &[Key::Left, Key::Right, Key::Delete, Key::Char('i'), Key::Char('r'), Key::Esc]);
    assert_eq!(e, same);
}

#[test]
fn insert_puts_the_chosen_kind_in_place_of_the_selected_child() {
    let start = || press(selecting(rooted(hs(pane("a", ""), pane("b", ""))), &[0], 1), &[ENTER]);
    let e = press(start(), &[ENTER]);
    assert_eq!(tree(&e), &rooted(hs(pane("a", ""), Container::HSplit(HSplitContainer::default()))));
    assert_eq!(e.selection_index, 0);
    assert_eq!(e.input_mode.mode(), Mode::Insert);
    assert_eq!(e.menu_selection_index, 0);
    let e = press(start(), &[Key::Down, ENTER]);
    assert_eq!(tree(&e), &rooted(hs(pane("a", ""), Container::VSplit(VSplitContainer::default()))));
    assert_eq!(e.menu_selection_index, 1);
    let e = press(start(), &[Key::Down, Key::Down, ENTER]);
    assert_eq!(tree(&e), &rooted(hs(pane("a", ""), blank())));
    let e = press(start(), &[Key::Down, Key::Down, Key::Down, ENTER]);
    assert_eq!(tree(&e), &rooted(hs(pane("a", ""), marked(pane("b", "")))));
    assert_eq!(e.selection_index, 0);
    assert_eq!(e.menu_selection_index, 3);
}

#[test]
fn new_node_makes_the_three_kinds() {
    assert_eq!(new_node(0), Some(Container::HSplit(HSplitContainer::default())));
    assert_eq!(new_node(1), Some(Container::VSplit(VSplitContainer::default())));
    assert_eq!(new_node(2), Some(blank()));
    assert_eq!(new_node(3), None);
    assert_eq!(new_node(255), None);
}

#[test]
fn leaf_under_the_root_is_replaced_by_an_empty_split() {
    // the focus starts on the root, whose only child is the leaf
    let root = rooted(pane("Hello", "Lorem Ipsum"));
    assert_eq!(root.depth(), 1);
    let e = Editor {
        input_mode: InputMode::Normal(ContainerStack::new(root)),
        selection_index: 0,
        menu_selection_index: 0,
    };
    let e = press(e, &[Key::Char('i')]);
    assert_eq!(e.input_mode.mode(), Mode::Select);
    assert_eq!(tree(&e), &rooted(marked(pane("Hello", "Lorem Ipsum"))));
    let e = press(e, &[ENTER]);
    assert_eq!(e.input_mode.mode(), Mode::Insert);
    assert_eq!(e.menu_selection_index, 0);
    let e = press(e, &[Key::Down]);
    assert_eq!(e.menu_selection_index, 1);
    let e = press(e, &[Key::Up]);
    assert_eq!(e.menu_selection_index, 0);
    let e = press(e, &[ENTER]);
    assert_eq!(tree(&e), &rooted(hs(blank(), blank())));
    assert_eq!(tree(&e), &rooted(Container::HSplit(HSplitContainer::default())));
    assert_eq!(tree(&e).depth(), 2);
    assert_eq!(e.input_mode.mode(), Mode::Insert);
    assert_eq!(e.selection_index, 0);
}

#[test]
fn split_put_into_a_focused_leaf_is_not_taken() {
    // focused on the leaf itself, which has no child slot for a split
    let e = press(Editor::new(rooted(pane("Hello", "Lorem Ipsum"))), &[Key::Char('i'), ENTER, Key::Down, Key::Up, ENTER]);
    assert_eq!(tree(&e), &rooted(marked(pane("Hello", "Lorem Ipsum"))));
    assert_eq!(tree(&e).depth(), 1);
    // a leaf, which supplies a widget, is taken
    let e = press(e, &[Key::Down, Key::Down, ENTER]);
    assert_eq!(tree(&e), &rooted(blank()));
}

#[test]
fn path_never_leaves_the_child_of_the_root() {
    let keys = [
        Key::Char('i'), Key::Up, Key::Up, Key::Down, Key::Right, Key::Down, Key::Up, Key::Up, Key::Up,
        Key::Left, Key::Delete, ENTER, Key::Down, ENTER, Key::Char('c'), Key::Down, Key::Up, Key::Up,
        Key::Char('r'), Key::Up, Key::Char('c'), Key::Up,
    ];
    let mut e = Editor::new(rooted(hs(vs(pane("a", ""), pane("b", "")), pane("c", ""))));
    for key in keys {
        e = press(e, &[key]);
        assert!(path(&e).len() >= 1);
        assert_eq!(path(&e)[0], 0);
    }
}

#[test]
fn path_always_leads_to_a_node_under_any_keys() {
    // a fixed pseudo-random walk over all the keys that are bound
    let bound = [
        Key::Char('i'), Key::Char('c'), Key::Char('r'), ENTER, Key::Up, Key::Down, Key::Left,
        Key::Right, Key::Delete, Key::Char('x'),
    ];
    let mut e = Editor::new(rooted(hs(vs(pane("a", ""), pane("b", "")), pane("c", ""))));
    let mut state: u32 = 12345;
    for _ in 0..3000 {
        state = state.wrapping_mul(1103515245).wrapping_add(12345);
        let key = bound[(state >> 16) as usize % bound.len()];
        e = press(e, &[key]);
        assert!(e.input_mode.stack().current().is_some());
        assert!(e.selection_index <= 1);
        assert_eq!(path(&e)[0], 0);
        assert!(matches!(tree(&e), Container::Root(_)));
    }
}

#[test]
fn screen_is_split_into_tree_and_status_bar() {
    let size = Rect { x: 0, y: 0, width: 80, height: 24 };
    assert_eq!(tree_area(size), Rect { x: 0, y: 0, width: 80, height: 23 });
    assert_eq!(status_area(size), Rect { x: 0, y: 23, width: 80, height: 1 });
    let one_row = Rect { x: 0, y: 0, width: 80, height: 1 };
    assert_eq!(tree_area(one_row), Rect { x: 0, y: 0, width: 80, height: 0 });
    assert_eq!(status_area(one_row), Rect { x: 0, y: 0, width: 80, height: 1 });
}

#[test]
fn menu_is_centred_with_a_row_for_each_entry() {
    let size = Rect { x: 0, y: 0, width: 80, height: 24 };
    assert_eq!(menu_area(size), Rect { x: 30, y: 10, width: 20, height: 5 });
    assert_eq!(menu_entry_area(size, 0), Rect { x: 30, y: 11, width: 20, height: 1 });
    assert_eq!(menu_entry_area(size, 1), Rect { x: 30, y: 12, width: 20, height: 1 });
    assert_eq!(menu_entry_area(size, 2), Rect { x: 30, y: 13, width: 20, height: 1 });
    let small = Rect { x: 0, y: 0, width: 20, height: 4 };
    assert_eq!(menu_area(small), Rect { x: 0, y: 0, width: 20, height: 5 });
    assert_eq!(menu_entry_area(small, 2), Rect { x: 0, y: 3, width: 20, height: 1 });
}

#[test]
fn menu_highlights_the_selected_entry_in_yellow() {
    assert_eq!(menu_entry_style(1, 1), Style::default().fg(Color::Yellow));
    assert_eq!(menu_entry_style(0, 1), Style::default().fg(Color::White));
    assert_eq!(menu_entry_style(2, 1), Style::default().fg(Color::White));
    assert_eq!(menu_entry_style(2, 200), Style::default().fg(Color::White));
}

#[test]
fn menu_has_three_labels() {
    assert_eq!(menu_label(0).unwrap(), "Horizontal Split Container");
    assert_eq!(menu_label(1).unwrap(), "Vertical Split Container");
    assert_eq!(menu_label(2).unwrap(), "Basic Widget");
    assert_eq!(menu_label(3), None);
    assert_eq!(menu_label(255), None);
}

#[test]
fn status_bar_names_the_mode() {
    assert_eq!(status_text(Mode::Normal), "Normal Mode | Press 'q' to quit | Press 'i' to enter insert mode");
    assert_eq!(
        status_text(Mode::Select),
        "Select Mode | Press 'q' to quit | Press 'c' to exit mode | Use arrow keys to navigate | Press ENTER to replace component"
    );
    assert_eq!(
        status_text(Mode::Insert),
        "Insert Mode | Press 'q' to quit | Press 'c' to exit mode | Use arrow keys to navigate | Press ENTER to insert component"
    );
}

#[test]
fn editor_draws_the_tree_above_the_status_bar() {
    let e = press(Editor::new(rooted(vs(pane("a", "1"), pane("b", "2")))), &[Key::Char('i'), Key::Right]);
    let list = e.draw(Rect { x: 0, y: 0, width: 80, height: 25 });
    assert_eq!(list.len(), 2);
    assert_eq!(list[0].area, Rect { x: 0, y: 0, width: 80, height: 12 });
    assert_eq!(list[1].area, Rect { x: 0, y: 12, width: 80, height: 12 });
    assert_eq!(list[0].style.border_style, Style::default().fg(Color::White).bg(Color::Black));
    assert_eq!(list[1].style.border_style, Style::default().fg(Color::Yellow));
    assert_eq!(list[1].title, "b");
    assert!(e.draw(Rect { x: 0, y: 0, width: 80, height: 2 }).is_empty());
}
