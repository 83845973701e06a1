//! The pixel surface that collects dots, and its conversion into rows of
//! terminal glyphs.

use vstd::prelude::*;

use qrcode::types::Color;

verus! {

/// The colour of a module, as handed to a renderer by the QR code encoder.
#[verifier::external_type_specification]
pub struct ExColor(qrcode::types::Color);

/// A QR dot that is either black (dark) or white (light).
#[derive(Clone, Copy, Debug, PartialEq, Eq, Structural)]
pub enum Dot {
    /// A black dot.
    Black,
    /// A white dot.
    White,
}

impl Dot {
    /// The dot that stands for a module of the given colour.
    pub fn default_color(color: Color) -> (r: Dot)
        ensures
            r == (match color {
                Color::Light => Dot::White,
                Color::Dark => Dot::Black,
            }),
    {
        match color {
            Color::Light => Dot::White,
            Color::Dark => Dot::Black,
        }
    }
}

/// Two dots stacked in one terminal character: `top` above `bot`.
#[derive(Clone, Copy, Debug, PartialEq, Eq, Structural)]
pub struct Point {
    pub top: Dot,
    pub bot: Dot,
}

/// The glyph for a cell whose upper half shows `top` and lower half `bot`,
/// with `Black` drawn as filled.
pub open spec fn point_glyph(top: Dot, bot: Dot) -> char {
    match (top, bot) {
        (Dot::Black, Dot::Black) => '█',
        (Dot::Black, Dot::White) => '▀',
        (Dot::White, Dot::Black) => '▄',
        (Dot::White, Dot::White) => ' ',
    }
}

impl Point {
    /// Converts a point to a Unicode block character.
    ///
    /// `Black` is drawn as filled, so the result looks right in a terminal
    /// with a white background and black text.
    pub fn to_char(&self) -> (r: char)
        ensures
            r == point_glyph(self.top, self.bot),
    {
        match (self.top, self.bot) {
            (Dot::Black, Dot::Black) => '█',
            (Dot::Black, Dot::White) => '▀',
            (Dot::White, Dot::Black) => '▄',
            (Dot::White, Dot::White) => ' ',
        }
    }
}

/// A lone dot of a last row that has no partner below it. It is drawn in the
/// upper half of its cell; keeping it apart from `Point` matters once colours
/// are used, where true black differs from the terminal's own background.
#[derive(Clone, Copy, Debug, PartialEq, Eq, Structural)]
pub struct HalfPoint(pub Dot);

/// The glyph for a half point: the upper half block when dark, else blank.
pub open spec fn half_glyph(d: Dot) -> char {
    match d {
        Dot::Black => '▀',
        Dot::White => ' ',
    }
}

impl HalfPoint {
    /// Converts a half point to a Unicode block character; see
    /// [`Point::to_char`].
    pub fn to_char(&self) -> (r: char)
        ensures
            r == half_glyph(self.0),
    {
        match self.0 {
            Dot::Black => '▀',
            Dot::White => ' ',
        }
    }
}


/// What a grid holds: its dimensions, its dots in row-major order, and the dot
/// that marking a pixel dark writes.
pub struct GridView {
    pub width: nat,
    pub height: nat,
    pub dots: Seq<Dot>,
    pub dark: Dot,
}

impl GridView {
    /// One slot for each coordinate.
    pub open spec fn wf(self) -> bool {
        self.dots.len() == self.width * self.height
    }

    /// The dot at column `x` of row `y`.
    pub open spec fn pixel(self, x: int, y: int) -> Dot {
        self.dots[x + y * self.width]
    }
}

/// A freshly made grid: every dot is `light`.
pub open spec fn blank_grid(width: nat, height: nat, dark: Dot, light: Dot) -> GridView {
    GridView { width, height, dots: Seq::new(width * height, |_i: int| light), dark }
}

/// The number of full glyph rows that a grid yields.
pub open spec fn row_pairs(v: GridView) -> nat {
    if v.width == 0 {
        0
    } else {
        v.height / 2
    }
}

/// Whether a grid yields a trailing half row: it has columns and an odd
/// number of rows.
pub open spec fn has_half_row(v: GridView) -> bool {
    v.width > 0 && v.height % 2 == 1
}

/// Glyph row `r`: pixel rows `2r` and `2r + 1` paired column by column.
pub open spec fn glyph_row(v: GridView, r: int) -> Seq<Point> {
    Seq::new(v.width, |x: int| Point { top: v.pixel(x, 2 * r), bot: v.pixel(x, 2 * r + 1) })
}

/// The half row made of the last pixel row.
pub open spec fn half_row(v: GridView) -> Seq<HalfPoint> {
    Seq::new(v.width, |x: int| HalfPoint(v.pixel(x, v.height - 1)))
}

/// All full glyph rows of a grid, top to bottom.
pub open spec fn composed_lines(v: GridView) -> Seq<Seq<Point>> {
    Seq::new(row_pairs(v), |r: int| glyph_row(v, r))
}

/// The trailing half row of a grid, if its height is odd.
pub open spec fn composed_last(v: GridView) -> Option<Seq<HalfPoint>> {
    if has_half_row(v) {
        Some(half_row(v))
    } else {
        None
    }
}

/// Slot `x + y * w` lies inside a `w` by `h` grid.
pub(crate) proof fn lemma_slot_in_grid(x: int, y: int, w: int, h: int)
    requires
        0 <= x < w,
        0 <= y < h,
    ensures
        0 <= y * w <= x + y * w < w * h,
{
    assert(0 <= y * w <= x + y * w < w * h) by (nonlinear_arith)
        requires
            0 <= x < w,
            0 <= y < h,
    ;
}

/// An image grid: the surface on which a QR code is drawn, one dot per
/// module, before it is turned into glyphs.
pub struct Grid {
    dots: Vec<Dot>,
    width: usize,
    height: usize,
    dark: Dot,
}

impl View for Grid {
    type V = GridView;

    closed spec fn view(&self) -> GridView {
        GridView {
            width: self.width as nat,
            height: self.height as nat,
            dots: self.dots@,
            dark: self.dark,
        }
    }
}

impl Grid {
    /// The grid is well formed and each slot index fits in a `usize`.
    pub closed spec fn wf(&self) -> bool {
        &&& self@.wf()
        &&& self.width * self.height <= usize::MAX
    }

    /// Makes a `width` by `height` grid of `light_pixel` dots; marking a pixel
    /// dark will write `dark_pixel`.
    pub fn new(width: u32, height: u32, dark_pixel: Dot, light_pixel: Dot) -> (r: Grid)
        requires
            width as nat * height as nat <= usize::MAX,
        ensures
            r@ == blank_grid(width as nat, height as nat, dark_pixel, light_pixel),
            r.wf(),
    {
        let w = width as usize;
        let h = height as usize;
        let n = w * h;
        let mut dots: Vec<Dot> = Vec::new();
        let mut i: usize = 0;
        while i < n
            invariant
                i <= n,
                dots@ == Seq::new(i as nat, |_j: int| light_pixel),
            decreases n - i,
        {
            dots.push(light_pixel);
            i = i + 1;
            assert(dots@ =~= Seq::new(i as nat, |_j: int| light_pixel));
        }
        let r = Grid { dots, width: w, height: h, dark: dark_pixel };
        assert(r@.dots =~= blank_grid(width as nat, height as nat, dark_pixel, light_pixel).dots);
        r
    }

    /// Whether `(x, y)` is a pixel of this grid.
    pub fn in_bounds(&self, x: u32, y: u32) -> (r: bool)
        ensures
            r == (x < self@.width && y < self@.height),
    {
        (x as usize) < self.width && (y as usize) < self.height
    }

    /// Marks the pixel at `(x, y)` dark. Only that slot changes.
    pub fn draw_dark_pixel(&mut self, x: u32, y: u32)
        requires
            old(self).wf(),
            x < old(self)@.width,
            y < old(self)@.height,
        ensures
            final(self).wf(),
            final(self)@ == (GridView {
                dots: old(self)@.dots.update(x + y * old(self)@.width, old(self)@.dark),
                ..old(self)@
            }),
    {
        let (x, y) = (x as usize, y as usize);
        proof {
            lemma_slot_in_grid(x as int, y as int, self.width as int, self.height as int);
        }
        let i = x + y * self.width;
        self.dots.set(i, self.dark);
    }

    /// The dot at column `x` of row `y`.
    fn dot_at(&self, x: usize, y: usize) -> (d: Dot)
        requires
            self.wf(),
            x < self@.width,
            y < self@.height,
        ensures
            d == self@.pixel(x as int, y as int),
    {
        proof {
            lemma_slot_in_grid(x as int, y as int, self.width as int, self.height as int);
        }
        self.dots[x + y * self.width]
    }

    /// Pairs pixel rows `2r` and `2r + 1` into one row of points.
    fn pair_rows(&self, r: usize) -> (row: Vec<Point>)
        requires
            self.wf(),
            2 * r + 1 < self@.height,
        ensures
            row@ == glyph_row(self@, r as int),
    {
        let mut row: Vec<Point> = Vec::new();
        let mut x: usize = 0;
        while x < self.width
            invariant
                self.wf(),
                2 * r + 1 < self@.height,
                x <= self@.width,
                row@ =~= glyph_row(self@, r as int).take(x as int),
            decreases self.width - x,
        {
            let top = self.dot_at(x, 2 * r);
            let bot = self.dot_at(x, 2 * r + 1);
            row.push(Point { top, bot });
            x = x + 1;
            assert(row@ =~= glyph_row(self@, r as int).take(x as int));
        }
        assert(glyph_row(self@, r as int).take(x as int) =~= glyph_row(self@, r as int));
        row
    }

    /// The last pixel row as half points.
    fn last_row(&self) -> (row: Vec<HalfPoint>)
        requires
            self.wf(),
            self@.height > 0,
        ensures
            row@ == half_row(self@),
    {
        let y = self.height - 1;
        let mut row: Vec<HalfPoint> = Vec::new();
        let mut x: usize = 0;
        while x < self.width
            invariant
                self.wf(),
                self@.height > 0,
                y == self@.height - 1,
                x <= self@.width,
                row@ =~= half_row(self@).take(x as int),
            decreases self.width - x,
        {
            row.push(HalfPoint(self.dot_at(x, y)));
            x = x + 1;
            assert(row@ =~= half_row(self@).take(x as int));
        }
        assert(half_row(self@).take(x as int) =~= half_row(self@));
        row
    }

    /// Turns the grid into glyph rows: pixel rows are paired top to bottom,
    /// and an odd last row becomes the half row.
    pub fn into_image(self) -> (img: Image)
        requires
            self.wf(),
        ensures
            img.lines_view() == composed_lines(self@),
            img.last_view() == composed_last(self@),
    {
        let mut lines: Vec<Vec<Point>> = Vec::new();
        let mut last_line: Option<Vec<HalfPoint>> = None;
        if self.width > 0 {
            let pairs = self.height / 2;
            let mut r: usize = 0;
            while r < pairs
                invariant
                    self.wf(),
                    self@.width > 0,
                    pairs == self@.height / 2,
                    r <= pairs,
                    lines@.len() == r,
                    rows_view(lines@) =~= composed_lines(self@).take(r as int),
                decreases pairs - r,
            {
                let row = self.pair_rows(r);
                let ghost row_view = row@;
                lines.push(row);
                assert(rows_view(lines@)[r as int] == row_view);
                r = r + 1;
                assert(rows_view(lines@) =~= composed_lines(self@).take(r as int));
            }
            assert(composed_lines(self@).take(r as int) =~= composed_lines(self@));
            if self.height % 2 == 1 {
                last_line = Some(self.last_row());
            }
        } else {
            assert(rows_view(lines@) =~= composed_lines(self@));
        }
        Image { lines, last_line }
    }
}

/// The points of each row.
pub open spec fn rows_view(rows: Seq<Vec<Point>>) -> Seq<Seq<Point>> {
    Seq::new(rows.len(), |i: int| rows[i]@)
}

/// A QR image for rendering to the terminal: full glyph rows, top to bottom,
/// and a half row when the source height is odd.
pub struct Image {
    pub lines: Vec<Vec<Point>>,
    pub last_line: Option<Vec<HalfPoint>>,
}

impl Image {
    /// The full glyph rows as sequences of points.
    pub open spec fn lines_view(&self) -> Seq<Seq<Point>> {
        rows_view(self.lines@)
    }

    /// The half row, if any, as a sequence of half points.
    pub open spec fn last_view(&self) -> Option<Seq<HalfPoint>> {
        match self.last_line {
            Some(l) => Some(l@),
            None => None,
        }
    }
}

} // verus!
