//! The screen around the pane tree: the tree's share of the terminal, the
//! status bar in the bottom row, and the insert menu.

use crate::editor::{Editor, Mode};
use crate::geometry::Rect;
use crate::style::{Color, Style};
use crate::widget::{views_of, PaintBox};
use vstd::prelude::*;

verus! {

/// The number of entries in the insert menu.
pub const MENU_ENTRIES: u8 = 3;

/// The terminal has a row for the status bar.
pub open spec fn has_status_row(size: Rect) -> bool {
    size.height >= 1
}

/// The terminal is large enough to centre the insert menu on it.
pub open spec fn has_menu_room(size: Rect) -> bool {
    size.width >= 20 && size.height >= 4
}

/// The part of a terminal of size `size` that the pane tree is drawn into:
/// all of it but the bottom row.
pub open spec fn tree_rect(size: Rect) -> Rect {
    Rect { x: 0, y: 0, width: size.width, height: (size.height - 1) as u16 }
}

/// The bottom row of the terminal, which holds the status bar.
pub open spec fn status_rect(size: Rect) -> Rect {
    Rect { x: size.x, y: (size.height - 1) as u16, width: size.width, height: 1 }
}

/// The frame of the insert menu: 20 columns wide, centred, with a row for
/// each entry inside its border.
pub open spec fn menu_rect(size: Rect) -> Rect {
    Rect {
        x: (size.width / 2 - 10) as u16,
        y: (size.height / 2 - 2) as u16,
        width: 20,
        height: (2 + MENU_ENTRIES) as u16,
    }
}

/// The row of entry `index` of the insert menu.
pub open spec fn menu_entry_rect(size: Rect, index: u8) -> Rect {
    Rect {
        x: (size.width / 2 - 10) as u16,
        y: (size.height / 2 - 1 + index) as u16,
        width: 20,
        height: 1,
    }
}

/// The style of entry `index` of the insert menu while entry `selected` is
/// the highlighted one: yellow for that entry, white for the others.
pub open spec fn menu_entry_look(index: u8, selected: u8) -> Style {
    Style {
        fg: Some(if index == selected { Color::Yellow } else { Color::White }),
        ..Style::plain()
    }
}

/// The text of the status bar in each mode.
pub open spec fn status_line(mode: Mode) -> Seq<char> {
    match mode {
        Mode::Normal => "Normal Mode | Press 'q' to quit | Press 'i' to enter insert mode"@,
        Mode::Select => "Select Mode | Press 'q' to quit | Press 'c' to exit mode | Use arrow keys to navigate | Press ENTER to replace component"@,
        Mode::Insert => "Insert Mode | Press 'q' to quit | Press 'c' to exit mode | Use arrow keys to navigate | Press ENTER to insert component"@,
    }
}

/// The label of each entry of the insert menu.
pub open spec fn menu_entry_label(index: u8) -> Option<Seq<char>> {
    if index == 0 {
        Some("Horizontal Split Container"@)
    } else if index == 1 {
        Some("Vertical Split Container"@)
    } else if index == 2 {
        Some("Basic Widget"@)
    } else {
        None
    }
}

/// The part of the terminal that the pane tree is drawn into.
pub fn tree_area(size: Rect) -> (r: Rect)
    requires
        has_status_row(size),
    ensures
        r == tree_rect(size),
        r.fits(),
{
    Rect { x: 0, y: 0, width: size.width, height: size.height - 1 }
}

/// The row that holds the status bar.
pub fn status_area(size: Rect) -> (r: Rect)
    requires
        has_status_row(size),
    ensures
        r == status_rect(size),
{
    Rect { x: size.x, y: size.height - 1, width: size.width, height: 1 }
}

/// The frame of the insert menu.
pub fn menu_area(size: Rect) -> (r: Rect)
    requires
        has_menu_room(size),
    ensures
        r == menu_rect(size),
        r.fits(),
{
    Rect { x: size.width / 2 - 10, y: size.height / 2 - 2, width: 20, height: 2 + MENU_ENTRIES as u16 }
}

/// The row of entry `index` of the insert menu.
pub fn menu_entry_area(size: Rect, index: u8) -> (r: Rect)
    requires
        has_menu_room(size),
    ensures
        r == menu_entry_rect(size, index),
        r.fits(),
{
    Rect { x: size.width / 2 - 10, y: size.height / 2 - 1 + index as u16, width: 20, height: 1 }
}

/// The style of entry `index` of the insert menu while entry `selected` is
/// the highlighted one.
pub fn menu_entry_style(index: u8, selected: u8) -> (r: Style)
    ensures
        r == menu_entry_look(index, selected),
{
    if index == selected {
        Style::default().fg(Color::Yellow)
    } else {
        Style::default().fg(Color::White)
    }
}

/// The text of the status bar in mode `mode`.
pub fn status_text(mode: Mode) -> (r: String)
    ensures
        r@ == status_line(mode),
{
    match mode {
        Mode::Normal => "Normal Mode | Press 'q' to quit | Press 'i' to enter insert mode".to_owned(),
        Mode::Select => "Select Mode | Press 'q' to quit | Press 'c' to exit mode | Use arrow keys to navigate | Press ENTER to replace component".to_owned(),
        Mode::Insert => "Insert Mode | Press 'q' to quit | Press 'c' to exit mode | Use arrow keys to navigate | Press ENTER to insert component".to_owned(),
    }
}

/// The label of entry `index` of the insert menu; `None` where the menu has
/// no such entry.
pub fn menu_label(index: u8) -> (r: Option<String>)
    ensures
        match r {
            Some(label) => menu_entry_label(index) == Some(label@),
            None => menu_entry_label(index) is None,
        },
        r is Some <==> index < MENU_ENTRIES,
{
    if index == 0 {
        Some("Horizontal Split Container".to_owned())
    } else if index == 1 {
        Some("Vertical Split Container".to_owned())
    } else if index == 2 {
        Some("Basic Widget".to_owned())
    } else {
        None
    }
}

impl Editor {
    /// The paint requests that draw the pane tree on a terminal of size
    /// `size`, the bottom row left free for the status bar.
    pub fn draw(&self, size: Rect) -> (r: Vec<PaintBox>)
        requires
            has_status_row(size),
        ensures
            views_of(r@) == self@.focus.tree.paint(tree_rect(size)),
    {
        self.input_mode.stack().root.draw(tree_area(size))
    }
}

} // verus!
