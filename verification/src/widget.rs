//! Leaf content: a titled text box with a base style and a transient
//! override, and the paint request it turns into.

use crate::geometry::Rect;
use crate::style::{WStyle, WStyleOpt};
use vstd::prelude::*;

verus! {

/// One request to the paint surface: a bordered box over `area` with the
/// title set into the border and the body text wrapped inside `interior`.
#[derive(Debug, PartialEq, Eq)]
pub struct PaintBox {
    pub area: Rect,
    pub interior: Rect,
    pub title: String,
    pub text: String,
    pub style: WStyle,
}

/// What a paint request says.
pub struct PaintBoxView {
    pub area: Rect,
    pub interior: Rect,
    pub title: Seq<char>,
    pub text: Seq<char>,
    pub style: WStyle,
}

impl View for PaintBox {
    type V = PaintBoxView;

    open spec fn view(&self) -> PaintBoxView {
        PaintBoxView {
            area: self.area,
            interior: self.interior,
            title: self.title@,
            text: self.text@,
            style: self.style,
        }
    }
}

/// What a list of paint requests says, request by request.
pub open spec fn views_of(list: Seq<PaintBox>) -> Seq<PaintBoxView> {
    list.map_values(|p: PaintBox| p@)
}

/// What a widget holds: its title and body text, its base style and the
/// override laid over it, if any.
pub struct WidgetView {
    pub title: Seq<char>,
    pub text: Seq<char>,
    pub style: WStyle,
    pub override_style: Option<WStyleOpt>,
}

impl WidgetView {
    /// The widget of a fresh pane: no title, no text, the base style and no
    /// override.
    pub open spec fn blank() -> WidgetView {
        WidgetView {
            title: Seq::empty(),
            text: Seq::empty(),
            style: WStyle::base(),
            override_style: None,
        }
    }

    /// The style the widget is drawn in: the base style with the override,
    /// if any, merged over it.
    pub open spec fn merged_style(self) -> WStyle {
        self.style.shown(self.override_style)
    }

    /// The widget with `style` merged into its base style.
    pub open spec fn restyled(self, style: WStyleOpt) -> WidgetView {
        WidgetView { style: self.style.merged(style), ..self }
    }

    /// The widget with `style` as its override.
    pub open spec fn overridden(self, style: WStyleOpt) -> WidgetView {
        WidgetView { override_style: Some(style), ..self }
    }

    /// The widget without an override.
    pub open spec fn cleared(self) -> WidgetView {
        WidgetView { override_style: None, ..self }
    }

    /// The paint requests of the widget in `area`: one box in the merged
    /// style, or none where `area` cannot hold a border with an interior.
    pub open spec fn paint(self, area: Rect) -> Seq<PaintBoxView> {
        if area.paintable() {
            seq![
                PaintBoxView {
                    area,
                    interior: area.inset(),
                    title: self.title,
                    text: self.text,
                    style: self.merged_style(),
                },
            ]
        } else {
            Seq::empty()
        }
    }
}

/// Content that a leaf pane can show.
pub trait Widget {
    /// What the widget holds.
    spec fn model(&self) -> WidgetView;

    /// The paint requests that draw the widget into `area`.
    fn draw(&self, area: Rect) -> (r: Vec<PaintBox>)
        requires
            area.fits(),
        ensures
            views_of(r@) == self.model().paint(area),
    ;

    /// The style the widget is drawn in.
    fn get_style(&self) -> (r: WStyle)
        ensures
            r == self.model().merged_style(),
    ;

    /// Lays `style` over the base style until it is unset.
    fn set_override_style(&mut self, style: WStyleOpt)
        ensures
            final(self).model() == old(self).model().overridden(style),
    ;

    /// Removes the override.
    fn unset_override_style(&mut self)
        ensures
            final(self).model() == old(self).model().cleared(),
    ;

    /// Merges `style` into the base style.
    fn set_style(&mut self, style: WStyleOpt)
        ensures
            final(self).model() == old(self).model().restyled(style),
    ;
}

/// A titled box of text.
#[derive(Debug, PartialEq, Eq)]
pub struct BasicWidget {
    pub title: String,
    pub text: String,
    pub style: WStyle,
    pub override_style: Option<WStyleOpt>,
}

impl View for BasicWidget {
    type V = WidgetView;

    open spec fn view(&self) -> WidgetView {
        WidgetView {
            title: self.title@,
            text: self.text@,
            style: self.style,
            override_style: self.override_style,
        }
    }
}

impl BasicWidget {
    /// A widget with the given title and text, in the base style.
    pub fn new(title: String, text: String) -> (r: BasicWidget)
        ensures
            r@ == (WidgetView { title: title@, text: text@, ..WidgetView::blank() }),
    {
        BasicWidget { title, text, style: WStyle::default(), override_style: None }
    }
}

impl Default for BasicWidget {
    /// The widget of a fresh pane: empty, in the base style.
    fn default() -> (r: BasicWidget)
        ensures
            r@ == WidgetView::blank(),
    {
        BasicWidget {
            title: String::new(),
            text: String::new(),
            style: WStyle::default(),
            override_style: None,
        }
    }
}

impl Widget for BasicWidget {
    open spec fn model(&self) -> WidgetView {
        self@
    }

    fn draw(&self, area: Rect) -> (r: Vec<PaintBox>) {
        let mut list: Vec<PaintBox> = Vec::new();
        if let Some(interior) = area.interior() {
            let request = PaintBox {
                area,
                interior,
                title: self.title.clone(),
                text: self.text.clone(),
                style: self.get_style(),
            };
            list.push(request);
            assert(views_of(list@) =~= seq![request@]);
        } else {
            assert(views_of(list@) =~= Seq::empty());
        }
        list
    }

    fn get_style(&self) -> (r: WStyle) {
        match self.override_style {
            Some(style) => self.style.with(style),
            None => self.style,
        }
    }

    fn set_override_style(&mut self, style: WStyleOpt) {
        self.override_style = Some(style);
    }

    fn unset_override_style(&mut self) {
        self.override_style = None;
    }

    fn set_style(&mut self, style: WStyleOpt) {
        self.style.set(style);
    }
}

/// An override that is set and cleared again leaves no trace: the widget is
/// drawn in its base style alone, which is the style it had before where no
/// override lay on it.
pub proof fn lemma_override_round_trip(widget: WidgetView, style: WStyleOpt)
    ensures
        widget.overridden(style).cleared() == widget.cleared(),
        widget.overridden(style).cleared().merged_style() == widget.style,
        widget.override_style is None ==> widget.overridden(style).cleared() == widget,
{
}

} // verus!
