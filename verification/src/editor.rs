//! The modal editor: the three input modes, each owning the focus stack, and
//! the transition that one input event makes.

use crate::stack::{
    lemma_child_selected_keeps_shape, lemma_clearing_keeps_resolved, lemma_moves_keep_resolved,
    lemma_styling_keeps_resolved, shift_target, ContainerStack, Focus,
};
use crate::tree::{BasicContainer, Container, HSplitContainer, Tree, VSplitContainer};
use vstd::prelude::*;

verus! {

/// A key press.
#[derive(Clone, Copy, Debug, PartialEq, Eq)]
pub enum Key {
    Backspace,
    Left,
    Right,
    Up,
    Down,
    Home,
    End,
    PageUp,
    PageDown,
    BackTab,
    Delete,
    Insert,
    F(u8),
    Char(char),
    Alt(char),
    Ctrl(char),
    Null,
    Esc,
}

/// An input event: the periodic redraw tick or a key press.
#[derive(Clone, Copy, Debug, PartialEq, Eq)]
pub enum ThingEvent {
    Tick,
    Key(Key),
}

/// What the event loop is to do after an event was handled.
#[derive(Clone, Copy, Debug, PartialEq, Eq)]
pub enum Action {
    /// Wait for the next event.
    Continue,
    /// Paint the screen anew.
    Redraw,
    /// Leave the loop.
    Quit,
}

/// The kind of an input mode.
#[derive(Clone, Copy, Debug, PartialEq, Eq)]
pub enum Mode {
    /// Looking only.
    Normal,
    /// Moving the focus, deleting and resetting.
    Select,
    /// Choosing what to put in place of a pane.
    Insert,
}

/// An input mode together with the focus stack, which the mode owns.
#[derive(Debug, PartialEq, Eq)]
pub enum InputMode {
    Normal(ContainerStack),
    Select(ContainerStack),
    Insert(ContainerStack),
}

impl InputMode {
    /// The kind of the mode.
    pub open spec fn kind(self) -> Mode {
        match self {
            InputMode::Normal(_) => Mode::Normal,
            InputMode::Select(_) => Mode::Select,
            InputMode::Insert(_) => Mode::Insert,
        }
    }

    /// The focus stack that the mode owns.
    pub open spec fn owned(self) -> ContainerStack {
        match self {
            InputMode::Normal(stack) => stack,
            InputMode::Select(stack) => stack,
            InputMode::Insert(stack) => stack,
        }
    }

    /// The kind of the mode.
    pub fn mode(&self) -> (r: Mode)
        ensures
            r == self.kind(),
    {
        match self {
            InputMode::Normal(_) => Mode::Normal,
            InputMode::Select(_) => Mode::Select,
            InputMode::Insert(_) => Mode::Insert,
        }
    }

    /// The focus stack that the mode owns.
    pub fn stack(&self) -> (r: &ContainerStack)
        ensures
            *r == self.owned(),
    {
        match self {
            InputMode::Normal(stack) => stack,
            InputMode::Select(stack) => stack,
            InputMode::Insert(stack) => stack,
        }
    }
}

impl From<InputMode> for ContainerStack {
    /// Takes the focus stack out of the mode that owns it.
    fn from(mode: InputMode) -> (r: ContainerStack) {
        match mode {
            InputMode::Normal(stack) => stack,
            InputMode::Select(stack) => stack,
            InputMode::Insert(stack) => stack,
        }
    }
}

impl vstd::std_specs::convert::FromSpecImpl<InputMode> for ContainerStack {
    open spec fn obeys_from_spec() -> bool {
        true
    }

    open spec fn from_spec(mode: InputMode) -> ContainerStack {
        mode.owned()
    }
}

/// The node kind that entry `index` of the insert menu names: 0 a split
/// side by side, 1 a split one above the other, 2 a leaf, each empty; no
/// other entry names one.
pub open spec fn menu_node(index: u8) -> Option<Tree> {
    if index == 0 {
        Some(Tree::blank_hsplit())
    } else if index == 1 {
        Some(Tree::blank_vsplit())
    } else if index == 2 {
        Some(Tree::blank_leaf())
    } else {
        None
    }
}

/// One more, but not over the largest index.
pub open spec fn up_one(index: u8) -> u8 {
    if index == u8::MAX {
        index
    } else {
        (index + 1) as u8
    }
}

/// One less, but not below 0.
pub open spec fn down_one(index: u8) -> u8 {
    if index == 0 {
        index
    } else {
        (index - 1) as u8
    }
}

/// What an editor holds: the kind of its mode, the focus, the slot
/// highlighted among the children of the current node and the entry
/// highlighted in the insert menu.
pub struct EditorView {
    pub mode: Mode,
    pub focus: Focus,
    pub selection: u8,
    pub menu: u8,
}

impl EditorView {
    /// The editor is in a state that its keys can reach over a tree that is
    /// a root over splits and leaves: the path leads to a node of that tree
    /// and the selection names slot 0 or 1.
    pub open spec fn sound(self) -> bool {
        self.focus.resolved() && self.selection <= 1
    }

    /// The editor after a key in Normal mode: `i` highlights the current
    /// node and enters Select mode; any other key changes nothing.
    pub open spec fn after_normal_key(self, key: Key) -> EditorView {
        if key == Key::Char('i') {
            EditorView { mode: Mode::Select, focus: self.focus.selected(), ..self }
        } else {
            self
        }
    }

    /// The editor after a key in Select mode. Every key first puts the
    /// highlight on the selected child of the current node. After that `c`
    /// clears every override in the tree and returns to Normal mode; Down
    /// moves the focus into the selected child; Up moves it to the parent;
    /// Left and Right move the selection to a sibling where there is one;
    /// Delete puts a fresh leaf in place of the selected child; `r` puts a
    /// fresh leaf in place of the whole tree below the root; Enter opens the
    /// insert menu at its first entry.
    pub open spec fn after_select_key(self, key: Key) -> EditorView {
        let marked = self.focus.child_selected(self.selection as int);
        if key == Key::Char('c') {
            EditorView {
                mode: Mode::Normal,
                focus: Focus { path: marked.path, tree: marked.tree.cleared() },
                ..self
            }
        } else if key == Key::Down {
            EditorView { focus: marked.focused_down(self.selection), selection: 0, ..self }
        } else if key == Key::Up {
            EditorView { focus: marked.focused_up(), selection: marked.popped_index(), ..self }
        } else if key == Key::Left {
            EditorView {
                focus: marked.focus_shifted(self.selection, true),
                selection: if marked.can_shift(self.selection, true) {
                    down_one(self.selection)
                } else {
                    self.selection
                },
                ..self
            }
        } else if key == Key::Right {
            EditorView {
                focus: marked.focus_shifted(self.selection, false),
                selection: if marked.can_shift(self.selection, false) {
                    up_one(self.selection)
                } else {
                    self.selection
                },
                ..self
            }
        } else if key == Key::Delete {
            EditorView {
                focus: marked.child_replaced(self.selection as int, Tree::blank_leaf()),
                ..self
            }
        } else if key == Key::Char('r') {
            EditorView { focus: marked.reset(), ..self }
        } else if key == Key::Char('\n') {
            EditorView { mode: Mode::Insert, focus: marked, menu: 0, ..self }
        } else {
            EditorView { focus: marked, ..self }
        }
    }

    /// The editor after a key in Insert mode: `c` returns to Select mode
    /// with the first child selected; Down and Up move through the menu
    /// without wrapping around; Enter puts a fresh node of the kind that the
    /// menu entry names in place of the selected child of the current node
    /// and selects the first child; any other key changes nothing.
    pub open spec fn after_insert_key(self, key: Key) -> EditorView {
        if key == Key::Char('c') {
            EditorView { mode: Mode::Select, selection: 0, ..self }
        } else if key == Key::Down {
            EditorView { menu: up_one(self.menu), ..self }
        } else if key == Key::Up {
            EditorView { menu: down_one(self.menu), ..self }
        } else if key == Key::Char('\n') {
            EditorView {
                focus: match menu_node(self.menu) {
                    Some(node) => self.focus.child_replaced(self.selection as int, node),
                    None => self.focus,
                },
                selection: 0,
                ..self
            }
        } else {
            self
        }
    }

    /// The editor after a key. The quit key `q` is answered by leaving the
    /// loop; of the editor it changes no more than any unbound key does.
    pub open spec fn after_key(self, key: Key) -> EditorView {
        match self.mode {
            Mode::Normal => self.after_normal_key(key),
            Mode::Select => self.after_select_key(key),
            Mode::Insert => self.after_insert_key(key),
        }
    }
}

/// The editor: the input mode with its focus stack, and the two cursors
/// that travel beside the tree.
#[derive(Debug, PartialEq, Eq)]
pub struct Editor {
    pub input_mode: InputMode,
    pub selection_index: u8,
    pub menu_selection_index: u8,
}

impl View for Editor {
    type V = EditorView;

    open spec fn view(&self) -> EditorView {
        EditorView {
            mode: self.input_mode.kind(),
            focus: self.input_mode.owned()@,
            selection: self.selection_index,
            menu: self.menu_selection_index,
        }
    }
}

/// A fresh node of the kind that entry `index` of the insert menu names.
pub fn new_node(index: u8) -> (r: Option<Container>)
    ensures
        match r {
            Some(node) => menu_node(index) == Some(node@),
            None => menu_node(index) is None,
        },
{
    if index == 0 {
        Some(Container::HSplit(HSplitContainer::default()))
    } else if index == 1 {
        Some(Container::VSplit(VSplitContainer::default()))
    } else if index == 2 {
        Some(Container::Leaf(BasicContainer::default()))
    } else {
        None
    }
}

/// One more, but not over the largest index.
fn step_up(index: u8) -> (r: u8)
    ensures
        r == up_one(index),
{
    if index == u8::MAX {
        index
    } else {
        index + 1
    }
}

/// One less, but not below 0.
fn step_down(index: u8) -> (r: u8)
    ensures
        r == down_one(index),
{
    if index == 0 {
        index
    } else {
        index - 1
    }
}

impl Editor {
    /// An editor in Normal mode over `root`, focused on the single child of
    /// the root, with both cursors at 0.
    pub fn new(root: Container) -> (r: Editor)
        ensures
            r@ == (EditorView {
                mode: Mode::Normal,
                focus: Focus { path: seq![0u8], tree: root@ },
                selection: 0,
                menu: 0,
            }),
            r@.focus.anchored(),
            root@.proper() ==> r@.sound(),
    {
        proof {
            assert(seq![0u8].drop_first() =~= Seq::<u8>::empty());
            if root@.proper() {
                let below = *root@->Root_0;
                assert(below.at(Seq::<u8>::empty()) == Some(below));
            }
        }
        let mut stack = ContainerStack::new(root);
        stack.push(0);
        assert(stack@.path =~= seq![0u8]);
        Editor { input_mode: InputMode::Normal(stack), selection_index: 0, menu_selection_index: 0 }
    }

    /// The editor after `key` in Normal mode.
    fn normal_key(stack: ContainerStack, selection: u8, menu: u8, key: Key) -> (r: Editor)
        ensures
            r@ == (EditorView {
                mode: Mode::Normal,
                focus: stack@,
                selection,
                menu,
            }).after_normal_key(key),
    {
        let mut stack = stack;
        match key {
            Key::Char('i') => {
                stack.set_selected_style();
                Editor {
                    input_mode: InputMode::Select(stack),
                    selection_index: selection,
                    menu_selection_index: menu,
                }
            },
            _ => Editor {
                input_mode: InputMode::Normal(stack),
                selection_index: selection,
                menu_selection_index: menu,
            },
        }
    }

    /// The editor after `key` in Select mode.
    fn select_key(stack: ContainerStack, selection: u8, menu: u8, key: Key) -> (r: Editor)
        ensures
            r@ == (EditorView {
                mode: Mode::Select,
                focus: stack@,
                selection,
                menu,
            }).after_select_key(key),
    {
        let mut stack = stack;
        let mut selection = selection;
        let mut menu = menu;
        stack.set_child_selected_style(selection);
        match key {
            Key::Char('c') => {
                stack.root.unset_override_style();
                return Editor {
                    input_mode: InputMode::Normal(stack),
                    selection_index: selection,
                    menu_selection_index: menu,
                };
            },
            Key::Down => {
                stack.focus_down(selection);
                selection = 0;
            },
            Key::Up => {
                selection = stack.focus_up();
            },
            Key::Left => {
                if stack.focus_shift(selection, true) {
                    selection = step_down(selection);
                }
            },
            Key::Right => {
                if stack.focus_shift(selection, false) {
                    selection = step_up(selection);
                }
            },
            Key::Delete => {
                stack.replace_child(selection as usize, Container::Leaf(BasicContainer::default()));
            },
            Key::Char('r') => {
                stack.reset();
            },
            Key::Char('\n') => {
                menu = 0;
                return Editor {
                    input_mode: InputMode::Insert(stack),
                    selection_index: selection,
                    menu_selection_index: menu,
                };
            },
            _ => {},
        }
        Editor {
            input_mode: InputMode::Select(stack),
            selection_index: selection,
            menu_selection_index: menu,
        }
    }

    /// The editor after `key` in Insert mode.
    fn insert_key(stack: ContainerStack, selection: u8, menu: u8, key: Key) -> (r: Editor)
        ensures
            r@ == (EditorView {
                mode: Mode::Insert,
                focus: stack@,
                selection,
                menu,
            }).after_insert_key(key),
    {
        let mut stack = stack;
        let mut selection = selection;
        let mut menu = menu;
        match key {
            Key::Char('c') => {
                return Editor {
                    input_mode: InputMode::Select(stack),
                    selection_index: 0,
                    menu_selection_index: menu,
                };
            },
            Key::Down => {
                menu = step_up(menu);
            },
            Key::Up => {
                menu = step_down(menu);
            },
            Key::Char('\n') => {
                if let Some(node) = new_node(menu) {
                    stack.replace_child(selection as usize, node);
                }
                selection = 0;
            },
            _ => {},
        }
        Editor {
            input_mode: InputMode::Insert(stack),
            selection_index: selection,
            menu_selection_index: menu,
        }
    }

    /// Handles one key press: returns the editor after it, and whether the
    /// key was the quit key `q`, which ends the run in every mode.
    pub fn handle_key(self, key: Key) -> (r: (Editor, bool))
        ensures
            r.0@ == self@.after_key(key),
            r.1 == (key == Key::Char('q')),
            self@.focus.anchored() ==> r.0@.focus.anchored(),
            self@.focus.path.len() >= 1 ==> r.0@.focus.path.len() >= 1,
            self@.sound() ==> r.0@.sound(),
    {
        proof {
            lemma_key_keeps_anchor(self@, key);
            if self@.sound() {
                lemma_key_keeps_sound(self@, key);
            }
        }
        let quit = match key {
            Key::Char('q') => true,
            _ => false,
        };
        let selection = self.selection_index;
        let menu = self.menu_selection_index;
        let next = match self.input_mode {
            InputMode::Normal(stack) => Self::normal_key(stack, selection, menu, key),
            InputMode::Select(stack) => Self::select_key(stack, selection, menu, key),
            InputMode::Insert(stack) => Self::insert_key(stack, selection, menu, key),
        };
        (next, quit)
    }

    /// Handles one event. A tick changes nothing and asks for a redraw; a
    /// key press is handled as `handle_key` says and asks to leave the loop
    /// where it was the quit key.
    pub fn handle_event(self, event: ThingEvent) -> (r: (Editor, Action))
        ensures
            match event {
                ThingEvent::Tick => r.0 == self && r.1 == Action::Redraw,
                ThingEvent::Key(key) => r.0@ == self@.after_key(key) && r.1 == if key
                    == Key::Char('q') {
                    Action::Quit
                } else {
                    Action::Continue
                },
            },
            self@.focus.anchored() ==> r.0@.focus.anchored(),
            self@.sound() ==> r.0@.sound(),
    {
        match event {
            ThingEvent::Tick => (self, Action::Redraw),
            ThingEvent::Key(key) => {
                let (next, quit) = self.handle_key(key);
                if quit {
                    (next, Action::Quit)
                } else {
                    (next, Action::Continue)
                }
            },
        }
    }
}

/// No key shortens a path that has a step to fewer than one step, and no
/// key takes a path out of the single child slot of the root.
pub proof fn lemma_key_keeps_anchor(editor: EditorView, key: Key)
    ensures
        editor.focus.anchored() ==> editor.after_key(key).focus.anchored(),
        editor.focus.path.len() >= 1 ==> editor.after_key(key).focus.path.len() >= 1,
{
}

/// In Select mode a shift key moves the selection exactly where the current
/// node has a child in the slot aimed at: the selection is then that slot;
/// where there is no such child it stays what it was. The path does not
/// change either way.
pub proof fn lemma_shift_moves_selection(editor: EditorView, left: bool)
    requires
        editor.mode == Mode::Select,
    ensures
        ({
            let after = editor.after_key(if left { Key::Left } else { Key::Right });
            let target = shift_target(editor.selection, left);
            &&& after.mode == Mode::Select
            &&& after.focus.path == editor.focus.path
            &&& editor.focus.can_shift(editor.selection, left) ==> after.selection == target
            &&& !editor.focus.can_shift(editor.selection, left) ==> after.selection
                == editor.selection
        }),
{
    lemma_child_selected_keeps_shape(
        editor.focus,
        editor.selection as int,
        shift_target(editor.selection, left),
    );
}

/// Over a tree that is a root over splits and leaves no key makes the path
/// go stale: after every key the path leads to a node of such a tree again,
/// and the selection names slot 0 or 1.
pub proof fn lemma_key_keeps_sound(editor: EditorView, key: Key)
    requires
        editor.sound(),
    ensures
        editor.after_key(key).sound(),
{
    lemma_menu_nodes_rootless();
    match editor.mode {
        Mode::Normal => {
            lemma_styling_keeps_resolved(editor.focus, 0, Tree::blank_leaf());
        },
        Mode::Select => {
            let selection = editor.selection;
            lemma_styling_keeps_resolved(editor.focus, selection as int, Tree::blank_leaf());
            let marked = editor.focus.child_selected(selection as int);
            lemma_styling_keeps_resolved(marked, selection as int, Tree::blank_leaf());
            lemma_moves_keep_resolved(marked, selection, true);
            lemma_moves_keep_resolved(marked, selection, false);
            lemma_clearing_keeps_resolved(marked);
        },
        Mode::Insert => {
            let selection = editor.selection as int;
            lemma_styling_keeps_resolved(editor.focus, selection, Tree::blank_leaf());
            lemma_styling_keeps_resolved(editor.focus, selection, Tree::blank_hsplit());
            lemma_styling_keeps_resolved(editor.focus, selection, Tree::blank_vsplit());
        },
    }
}

/// The nodes that the insert menu offers are made of splits and leaves.
proof fn lemma_menu_nodes_rootless()
    ensures
        Tree::blank_leaf().rootless(),
        Tree::blank_hsplit().rootless(),
        Tree::blank_vsplit().rootless(),
{
    reveal_with_fuel(Tree::rootless, 3);
}

} // verus!
