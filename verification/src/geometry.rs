//! Cell rectangles, split ratios and the partition of a rectangle in two.

use vstd::prelude::*;

verus! {

/// A rectangle of terminal cells: `width` columns starting at column `x`,
/// `height` rows starting at row `y`.
#[derive(Clone, Copy, Debug, PartialEq, Eq, Structural)]
pub struct Rect {
    pub x: u16,
    pub y: u16,
    pub width: u16,
    pub height: u16,
}

impl Rect {
    /// The far edges of the rectangle are addressable cell coordinates.
    pub open spec fn fits(self) -> bool {
        &&& self.x + self.width <= u16::MAX
        &&& self.y + self.height <= u16::MAX
    }

    /// The cell at column `col`, row `row` lies inside the rectangle.
    pub open spec fn contains(self, col: int, row: int) -> bool {
        &&& self.x <= col < self.x + self.width
        &&& self.y <= row < self.y + self.height
    }

    /// The rectangle is large enough to hold a border with an interior.
    pub open spec fn paintable(self) -> bool {
        self.width >= 2 && self.height >= 2
    }

    /// The rectangle shrunk by one cell on every side.
    pub open spec fn inset(self) -> Rect
        recommends
            self.paintable(),
            self.fits(),
    {
        Rect {
            x: (self.x + 1) as u16,
            y: (self.y + 1) as u16,
            width: (self.width - 2) as u16,
            height: (self.height - 2) as u16,
        }
    }

    /// The part of the rectangle left of column offset `cut`.
    pub open spec fn left_part(self, cut: int) -> Rect {
        Rect { x: self.x, y: self.y, width: cut as u16, height: self.height }
    }

    /// The part of the rectangle from column offset `cut` on.
    pub open spec fn right_part(self, cut: int) -> Rect {
        Rect {
            x: (self.x + cut) as u16,
            y: self.y,
            width: (self.width - cut) as u16,
            height: self.height,
        }
    }

    /// The part of the rectangle above row offset `cut`.
    pub open spec fn top_part(self, cut: int) -> Rect {
        Rect { x: self.x, y: self.y, width: self.width, height: cut as u16 }
    }

    /// The part of the rectangle from row offset `cut` on.
    pub open spec fn bottom_part(self, cut: int) -> Rect {
        Rect {
            x: self.x,
            y: (self.y + cut) as u16,
            width: self.width,
            height: (self.height - cut) as u16,
        }
    }

    /// Whether the rectangle can hold a border with an interior.
    pub fn is_paintable(&self) -> (r: bool)
        ensures
            r == self.paintable(),
    {
        self.width >= 2 && self.height >= 2
    }

    /// The interior left inside a one-cell border, or `None` where the
    /// rectangle is too small to have one.
    pub fn interior(&self) -> (r: Option<Rect>)
        requires
            self.fits(),
        ensures
            r == if self.paintable() { Some(self.inset()) } else { None::<Rect> },
    {
        if self.width >= 2 && self.height >= 2 {
            Some(Rect {
                x: self.x + 1,
                y: self.y + 1,
                width: self.width - 2,
                height: self.height - 2,
            })
        } else {
            None
        }
    }
}

/// The share of a split's primary dimension given to its first child, as the
/// fraction `num / den` with a positive `den`. Any such fraction is accepted;
/// geometry uses it clamped to the range from 0 to 1.
#[derive(Clone, Copy, Debug, PartialEq, Eq)]
pub struct Ratio {
    num: i64,
    /// The denominator less one, so that no value has the denominator 0.
    den_less_one: u64,
}

impl Ratio {
    /// The numerator.
    pub closed spec fn num(self) -> int {
        self.num as int
    }

    /// The denominator.
    pub closed spec fn den(self) -> int {
        self.den_less_one + 1
    }

    /// The numerator of the fraction clamped to the range from 0 to 1.
    pub open spec fn clamped_num(self) -> int {
        if self.num() < 0 {
            0
        } else if self.num() > self.den() {
            self.den()
        } else {
            self.num()
        }
    }

    /// The split coordinate along a dimension of `dim` cells: the clamped
    /// fraction of `dim`, rounded down.
    pub open spec fn cut(self, dim: int) -> int {
        (self.clamped_num() * dim) / self.den()
    }

    /// The fraction, unclamped, is greater than one half.
    pub open spec fn above_half(self) -> bool {
        2 * self.num() > self.den()
    }

    /// The ratio one half, as the fraction 1 / 2.
    pub closed spec fn one_half() -> Ratio {
        Ratio { num: 1, den_less_one: 1 }
    }

    /// The fraction `num / den`; `None` exactly where `den` is zero.
    pub fn new(num: i64, den: u64) -> (r: Option<Ratio>)
        ensures
            r is None <==> den == 0,
            r matches Some(ratio) ==> ratio.num() == num && ratio.den() == den,
    {
        if den == 0 {
            None
        } else {
            Some(Ratio { num, den_less_one: den - 1 })
        }
    }

    /// One half, the ratio of a freshly made split.
    pub fn half() -> (r: Ratio)
        ensures
            r == Ratio::one_half(),
    {
        Ratio { num: 1, den_less_one: 1 }
    }

    /// The numerator.
    pub fn numerator(&self) -> (r: i64)
        ensures
            r == self.num(),
    {
        self.num
    }

    /// The denominator.
    pub fn denominator(&self) -> (r: u128)
        ensures
            r == self.den(),
            r > 0,
    {
        self.den_less_one as u128 + 1
    }

    /// Whether the fraction, unclamped, is greater than one half.
    pub fn is_above_half(&self) -> (r: bool)
        ensures
            r == self.above_half(),
    {
        if self.num <= 0 {
            false
        } else {
            let twice: u128 = 2 * (self.num as u128);
            twice > self.den_less_one as u128 + 1
        }
    }

    /// The split coordinate along a dimension of `dim` cells.
    pub fn split_point(&self, dim: u16) -> (r: u16)
        ensures
            r == self.cut(dim as int),
            r <= dim,
    {
        proof {
            lemma_cut_bounds(*self, dim as int);
        }
        let den: u128 = self.den_less_one as u128 + 1;
        let part: u128 = if self.num < 0 {
            0
        } else if self.num as u128 > den {
            den
        } else {
            self.num as u128
        };
        assert(part * (dim as u128) <= 0x1_0000_0000_0000_0000 * 0xffff) by (nonlinear_arith)
            requires
                part <= 0x1_0000_0000_0000_0000,
                dim <= 0xffff,
        ;
        let scaled: u128 = part * (dim as u128);
        (scaled / den) as u16
    }
}

/// The denominator of a ratio is positive, and a ratio is no more than its
/// numerator and its denominator: two ratios that agree in both are equal.
pub proof fn lemma_ratio_parts(a: Ratio, b: Ratio)
    ensures
        a.den() > 0,
        a.num() == b.num() && a.den() == b.den() ==> a == b,
{
}

/// One half is the fraction 1 / 2, which is not above one half.
pub proof fn lemma_one_half()
    ensures
        Ratio::one_half().num() == 1,
        Ratio::one_half().den() == 2,
        !Ratio::one_half().above_half(),
{
}

/// The split coordinate lies within the dimension it divides.
pub proof fn lemma_cut_bounds(ratio: Ratio, dim: int)
    requires
        dim >= 0,
    ensures
        0 <= ratio.cut(dim) <= dim,
{
    let n = ratio.clamped_num();
    let d = ratio.den();
    assert(0 <= (n * dim) / d <= dim) by (nonlinear_arith)
        requires
            0 <= n <= d,
            d > 0,
            dim >= 0,
    ;
}

/// A ratio below 0 is used as 0 and one above 1 as 1: the first puts the
/// split coordinate at the start of the dimension, the second at its end. A
/// ratio within the range is used as it is: the split coordinate is the
/// fraction of the dimension, rounded down.
pub proof fn lemma_cut_of_clamped_ratio(ratio: Ratio, dim: int)
    requires
        dim >= 0,
    ensures
        ratio.num() < 0 ==> ratio.cut(dim) == 0,
        ratio.num() > ratio.den() ==> ratio.cut(dim) == dim,
        0 <= ratio.num() <= ratio.den() ==> ratio.cut(dim) == (ratio.num() * dim) / ratio.den(),
{
    let d = ratio.den();
    assert((0 * dim) / d == 0) by (nonlinear_arith)
        requires
            d > 0,
    ;
    assert((d * dim) / d == dim) by (nonlinear_arith)
        requires
            d > 0,
    ;
}

/// Which child of a split a collapsed region is given to.
#[derive(Clone, Copy, Debug, PartialEq, Eq, Structural)]
pub enum Side {
    First,
    Second,
}

/// How a split lays out its two children in a rectangle.
#[derive(Clone, Copy, Debug, PartialEq, Eq)]
pub enum SplitLayout {
    /// One child gets the whole rectangle; the other is not shown.
    Collapsed(Side),
    /// The first child gets the first rectangle, the second the second.
    Divided(Rect, Rect),
}

/// The child that a collapsed split shows: the first where the ratio is above
/// one half, else the second.
pub open spec fn surviving_side(ratio: Ratio) -> Side {
    if ratio.above_half() {
        Side::First
    } else {
        Side::Second
    }
}

/// The layout of a side-by-side split of `area`: two columns where both are
/// at least 2 cells wide, else one child alone.
pub open spec fn columns(area: Rect, ratio: Ratio) -> SplitLayout {
    let cut = ratio.cut(area.width as int);
    if cut < 2 || area.width - cut < 2 {
        SplitLayout::Collapsed(surviving_side(ratio))
    } else {
        SplitLayout::Divided(area.left_part(cut), area.right_part(cut))
    }
}

/// The layout of a stacked split of `area`: two rows where both are at least
/// 2 cells high, else one child alone.
pub open spec fn rows(area: Rect, ratio: Ratio) -> SplitLayout {
    let cut = ratio.cut(area.height as int);
    if cut < 2 || area.height - cut < 2 {
        SplitLayout::Collapsed(surviving_side(ratio))
    } else {
        SplitLayout::Divided(area.top_part(cut), area.bottom_part(cut))
    }
}

/// The child that a collapsed split with this ratio shows.
fn side_for(ratio: &Ratio) -> (r: Side)
    ensures
        r == surviving_side(*ratio),
{
    if ratio.is_above_half() {
        Side::First
    } else {
        Side::Second
    }
}

/// Lays out a side-by-side split of `area`.
pub fn split_columns(area: Rect, ratio: &Ratio) -> (r: SplitLayout)
    requires
        area.fits(),
    ensures
        r == columns(area, *ratio),
        r matches SplitLayout::Divided(left, right) ==> left.fits() && right.fits()
            && left.width >= 2 && right.width >= 2,
{
    let cut = ratio.split_point(area.width);
    if cut < 2 || area.width - cut < 2 {
        SplitLayout::Collapsed(side_for(ratio))
    } else {
        SplitLayout::Divided(
            Rect { x: area.x, y: area.y, width: cut, height: area.height },
            Rect { x: area.x + cut, y: area.y, width: area.width - cut, height: area.height },
        )
    }
}

/// Lays out a stacked split of `area`.
pub fn split_rows(area: Rect, ratio: &Ratio) -> (r: SplitLayout)
    requires
        area.fits(),
    ensures
        r == rows(area, *ratio),
        r matches SplitLayout::Divided(top, bottom) ==> top.fits() && bottom.fits()
            && top.height >= 2 && bottom.height >= 2,
{
    let cut = ratio.split_point(area.height);
    if cut < 2 || area.height - cut < 2 {
        SplitLayout::Collapsed(side_for(ratio))
    } else {
        SplitLayout::Divided(
            Rect { x: area.x, y: area.y, width: area.width, height: cut },
            Rect { x: area.x, y: area.y + cut, width: area.width, height: area.height - cut },
        )
    }
}

/// The two columns cut from a rectangle tile it: every cell of the rectangle
/// lies in exactly one of them and neither reaches outside it. They meet at
/// the split coordinate, which for a ratio in the range from 0 to 1 is that
/// fraction of the width, rounded down.
pub proof fn lemma_columns_tile(area: Rect, ratio: Ratio)
    requires
        area.fits(),
    ensures
        ({
            let cut = ratio.cut(area.width as int);
            let left = area.left_part(cut);
            let right = area.right_part(cut);
            &&& left.width == cut
            &&& 0 <= ratio.num() <= ratio.den() ==> cut == (ratio.num() * area.width)
                / ratio.den()
            &&& left.x == area.x
            &&& right.x == left.x + left.width
            &&& left.width + right.width == area.width
            &&& forall|col: int, row: int|
                area.contains(col, row) <==> (#[trigger] left.contains(col, row)
                    || right.contains(col, row))
            &&& forall|col: int, row: int|
                !(#[trigger] left.contains(col, row) && right.contains(col, row))
        }),
{
    lemma_cut_bounds(ratio, area.width as int);
}

/// The two rows cut from a rectangle tile it: every cell of the rectangle
/// lies in exactly one of them and neither reaches outside it. They meet at
/// the split coordinate, which for a ratio in the range from 0 to 1 is that
/// fraction of the height, rounded down.
pub proof fn lemma_rows_tile(area: Rect, ratio: Ratio)
    requires
        area.fits(),
    ensures
        ({
            let cut = ratio.cut(area.height as int);
            let top = area.top_part(cut);
            let bottom = area.bottom_part(cut);
            &&& top.height == cut
            &&& 0 <= ratio.num() <= ratio.den() ==> cut == (ratio.num() * area.height)
                / ratio.den()
            &&& top.y == area.y
            &&& bottom.y == top.y + top.height
            &&& top.height + bottom.height == area.height
            &&& forall|col: int, row: int|
                area.contains(col, row) <==> (#[trigger] top.contains(col, row)
                    || bottom.contains(col, row))
            &&& forall|col: int, row: int|
                !(#[trigger] top.contains(col, row) && bottom.contains(col, row))
        }),
{
    lemma_cut_bounds(ratio, area.height as int);
}

} // verus!
