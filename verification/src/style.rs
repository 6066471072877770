//! The style model: a fully specified base style, a partial override, and
//! the merge of the two.

use vstd::prelude::*;

verus! {

/// A terminal colour.
#[derive(Clone, Copy, Debug, PartialEq, Eq, Structural)]
pub enum Color {
    Reset,
    Black,
    Red,
    Green,
    Yellow,
    Blue,
    Magenta,
    Cyan,
    Gray,
    DarkGray,
    LightRed,
    LightGreen,
    LightYellow,
    LightBlue,
    LightMagenta,
    LightCyan,
    White,
    Rgb(u8, u8, u8),
    Indexed(u8),
}

/// How one attribute of a pane is drawn: a foreground and a background
/// colour, each optional, and the text modifiers to switch on and off, as
/// bit sets.
#[derive(Clone, Copy, Debug, PartialEq, Eq)]
pub struct Style {
    pub fg: Option<Color>,
    pub bg: Option<Color>,
    pub add_modifier: u16,
    pub sub_modifier: u16,
}

impl Style {
    /// The style that changes nothing.
    pub open spec fn plain() -> Style {
        Style { fg: None, bg: None, add_modifier: 0, sub_modifier: 0 }
    }

    /// The style with both colours given.
    pub open spec fn colored(fg: Color, bg: Color) -> Style {
        Style { fg: Some(fg), bg: Some(bg), add_modifier: 0, sub_modifier: 0 }
    }

    /// The same style with the foreground colour `color`.
    pub fn fg(self, color: Color) -> (r: Style)
        ensures
            r == (Style { fg: Some(color), ..self }),
    {
        Style { fg: Some(color), bg: self.bg, add_modifier: self.add_modifier, sub_modifier: self.sub_modifier }
    }

    /// The same style with the background colour `color`.
    pub fn bg(self, color: Color) -> (r: Style)
        ensures
            r == (Style { bg: Some(color), ..self }),
    {
        Style { fg: self.fg, bg: Some(color), add_modifier: self.add_modifier, sub_modifier: self.sub_modifier }
    }
}

impl Default for Style {
    /// The style that changes nothing.
    fn default() -> (r: Style)
        ensures
            r == Style::plain(),
    {
        Style { fg: None, bg: None, add_modifier: 0, sub_modifier: 0 }
    }
}

/// A partial style: each attribute is either set or left to the base.
#[derive(Clone, Copy, Debug, PartialEq, Eq)]
pub struct WStyleOpt {
    pub title_style: Option<Style>,
    pub text_style: Option<Style>,
    pub border_style: Option<Style>,
}

impl WStyleOpt {
    /// The override that sets nothing.
    pub open spec fn empty() -> WStyleOpt {
        WStyleOpt { title_style: None, text_style: None, border_style: None }
    }

    /// The override that marks the focused pane: a yellow border, the rest
    /// left to the base.
    pub open spec fn highlight() -> WStyleOpt {
        WStyleOpt {
            title_style: None,
            text_style: None,
            border_style: Some(
                Style { fg: Some(Color::Yellow), bg: None, add_modifier: 0, sub_modifier: 0 },
            ),
        }
    }

    /// This override with `later` laid over it: per attribute the value of
    /// `later` where it sets one, else this one's.
    pub open spec fn overlaid(self, later: WStyleOpt) -> WStyleOpt {
        WStyleOpt {
            title_style: if later.title_style is Some { later.title_style } else { self.title_style },
            text_style: if later.text_style is Some { later.text_style } else { self.text_style },
            border_style: if later.border_style is Some {
                later.border_style
            } else {
                self.border_style
            },
        }
    }

    /// The same override with the title style set.
    pub fn set_title_style(self, style: Style) -> (r: WStyleOpt)
        ensures
            r == (WStyleOpt { title_style: Some(style), ..self }),
    {
        WStyleOpt {
            title_style: Some(style),
            text_style: self.text_style,
            border_style: self.border_style,
        }
    }

    /// The same override with the body text style set.
    pub fn set_text_style(self, style: Style) -> (r: WStyleOpt)
        ensures
            r == (WStyleOpt { text_style: Some(style), ..self }),
    {
        WStyleOpt {
            title_style: self.title_style,
            text_style: Some(style),
            border_style: self.border_style,
        }
    }

    /// The same override with the border style set.
    pub fn set_border_style(self, style: Style) -> (r: WStyleOpt)
        ensures
            r == (WStyleOpt { border_style: Some(style), ..self }),
    {
        WStyleOpt {
            title_style: self.title_style,
            text_style: self.text_style,
            border_style: Some(style),
        }
    }

    /// The override that marks the focused pane.
    pub fn selected() -> (r: WStyleOpt)
        ensures
            r == WStyleOpt::highlight(),
    {
        WStyleOpt::default().set_border_style(Style::default().fg(Color::Yellow))
    }
}

impl Default for WStyleOpt {
    /// The override that sets nothing.
    fn default() -> (r: WStyleOpt)
        ensures
            r == WStyleOpt::empty(),
    {
        WStyleOpt { title_style: None, text_style: None, border_style: None }
    }
}

/// A fully specified style: one style for each of the title, the body text
/// and the border.
#[derive(Clone, Copy, Debug, PartialEq, Eq)]
pub struct WStyle {
    pub title_style: Style,
    pub text_style: Style,
    pub border_style: Style,
}

impl WStyle {
    /// The style of a fresh pane: every attribute white on black.
    pub open spec fn base() -> WStyle {
        WStyle {
            title_style: Style::colored(Color::White, Color::Black),
            text_style: Style::colored(Color::White, Color::Black),
            border_style: Style::colored(Color::White, Color::Black),
        }
    }

    /// The merge of this style with an override: per attribute the
    /// override's value where it sets one, else this style's.
    pub open spec fn merged(self, over: WStyleOpt) -> WStyle {
        WStyle {
            title_style: match over.title_style {
                Some(s) => s,
                None => self.title_style,
            },
            text_style: match over.text_style {
                Some(s) => s,
                None => self.text_style,
            },
            border_style: match over.border_style {
                Some(s) => s,
                None => self.border_style,
            },
        }
    }

    /// The merge of this style with an optional override.
    pub open spec fn shown(self, over: Option<WStyleOpt>) -> WStyle {
        match over {
            Some(o) => self.merged(o),
            None => self,
        }
    }

    /// The style made of the three given.
    pub fn new(title_style: Style, text_style: Style, border_style: Style) -> (r: WStyle)
        ensures
            r == (WStyle { title_style, text_style, border_style }),
    {
        WStyle { title_style, text_style, border_style }
    }

    /// Merges `style` into this style in place and hands the style back for
    /// further changes.
    pub fn set(&mut self, style: WStyleOpt) -> (r: &mut WStyle)
        ensures
            *r == old(self).merged(style),
            *final(self) == *final(r),
    {
        if let Some(title_style) = style.title_style {
            self.title_style = title_style;
        }
        if let Some(text_style) = style.text_style {
            self.text_style = text_style;
        }
        if let Some(border_style) = style.border_style {
            self.border_style = border_style;
        }
        self
    }

    /// The merge of this style with `style`, as a new value.
    pub fn with(&self, style: WStyleOpt) -> (r: WStyle)
        ensures
            r == self.merged(style),
    {
        let mut merged = *self;
        merged.set(style);
        merged
    }
}

impl Default for WStyle {
    /// The style of a fresh pane: every attribute white on black.
    fn default() -> (r: WStyle)
        ensures
            r == WStyle::base(),
    {
        WStyle {
            title_style: Style::default().fg(Color::White).bg(Color::Black),
            text_style: Style::default().fg(Color::White).bg(Color::Black),
            border_style: Style::default().fg(Color::White).bg(Color::Black),
        }
    }
}

impl From<WStyleOpt> for WStyle {
    /// The base style of a fresh pane with `style` merged into it.
    fn from(style: WStyleOpt) -> (r: WStyle) {
        let default = WStyle::default();
        WStyle {
            title_style: match style.title_style {
                Some(s) => s,
                None => default.title_style,
            },
            text_style: match style.text_style {
                Some(s) => s,
                None => default.text_style,
            },
            border_style: match style.border_style {
                Some(s) => s,
                None => default.border_style,
            },
        }
    }
}

impl vstd::std_specs::convert::FromSpecImpl<WStyleOpt> for WStyle {
    open spec fn obeys_from_spec() -> bool {
        true
    }

    open spec fn from_spec(style: WStyleOpt) -> WStyle {
        WStyle::base().merged(style)
    }
}

/// Merging the empty override leaves a style as it is.
pub proof fn lemma_merge_empty(base: WStyle)
    ensures
        base.merged(WStyleOpt::empty()) == base,
{
}

/// Merging one override and after it another is right-biased: each attribute
/// takes the second override's value where it sets one, else the first's,
/// else the base's, which is the merge with the first override overlaid by
/// the second.
pub proof fn lemma_merge_twice(base: WStyle, first: WStyleOpt, second: WStyleOpt)
    ensures
        base.merged(first).merged(second) == base.merged(first.overlaid(second)),
        base.merged(first).merged(second).title_style == match second.title_style {
            Some(s) => s,
            None => match first.title_style {
                Some(s) => s,
                None => base.title_style,
            },
        },
        base.merged(first).merged(second).text_style == match second.text_style {
            Some(s) => s,
            None => match first.text_style {
                Some(s) => s,
                None => base.text_style,
            },
        },
        base.merged(first).merged(second).border_style == match second.border_style {
            Some(s) => s,
            None => match first.border_style {
                Some(s) => s,
                None => base.border_style,
            },
        },
{
}

} // verus!
