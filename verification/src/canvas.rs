//! The canvas: a rectangle of pixels, row after row.

use vstd::prelude::*;
use vstd::arithmetic::div_mod::lemma_fundamental_div_mod_converse;
use crate::color::Color;
use crate::text::{digits, spec_digits};

verus! {

pub struct Canvas {
    pub width: usize,
    pub height: usize,
    pub content: Vec<Color>,
}

/// A place on a canvas of the given width names its column and row.
pub proof fn lemma_pixel_index(width: int, x: int, y: int)
    requires
        0 <= x < width,
        0 <= y,
    ensures
        (x + y * width) / width == y,
        (x + y * width) % width == x,
        0 <= x + y * width,
{
    assert(x + y * width == y * width + x);
    assert(0 <= y * width) by (nonlinear_arith)
        requires
            0 <= y,
            0 <= width,
    ;
    lemma_fundamental_div_mod_converse(x + y * width, width, y, x);
}

/// The pixels of a canvas of the given size lie within its content.
pub proof fn lemma_pixel_in_bounds(width: int, height: int, x: int, y: int)
    requires
        0 <= x < width,
        0 <= y < height,
    ensures
        0 <= x + y * width < width * height,
{
    assert(0 <= x + y * width < width * height) by (nonlinear_arith)
        requires
            0 <= x < width,
            0 <= y < height,
    ;
}

impl Canvas {
    /// There is a pixel for each column of each row.
    pub open spec fn wf(&self) -> bool {
        self.content@.len() == self.width * self.height
    }

    /// The place of the pixel in column `x` of row `y`.
    pub open spec fn spec_index(&self, x: int, y: int) -> int {
        x + y * self.width
    }

    /// The colour in column `x` of row `y`.
    pub open spec fn spec_pixel(&self, x: int, y: int) -> Color {
        self.content@[self.spec_index(x, y)]
    }

    /// A black canvas.
    pub fn make(width: usize, height: usize) -> (c: Canvas)
        requires
            width * height <= usize::MAX,
        ensures
            c.width == width,
            c.height == height,
            c.wf(),
            forall|i: int| 0 <= i < c.content@.len() ==> c.content@[i] == Color::spec_black(),
    {
        Canvas::make_with_color(width, height, Color::black())
    }

    /// A canvas of one colour.
    pub fn make_with_color(width: usize, height: usize, color: Color) -> (c: Canvas)
        requires
            width * height <= usize::MAX,
        ensures
            c.width == width,
            c.height == height,
            c.wf(),
            forall|i: int| 0 <= i < c.content@.len() ==> c.content@[i] == color,
    {
        let total = width * height;
        let mut content: Vec<Color> = Vec::with_capacity(total);
        let mut index: usize = 0;
        while index < total
            invariant
                index <= total,
                content@.len() == index,
                forall|i: int| 0 <= i < index ==> content@[i] == color,
            decreases total - index,
        {
            content.push(color);
            index += 1;
        }
        Canvas { width, height, content }
    }

    /// Sets the pixel in column `x` of row `y`. The place just behind the
    /// last pixel is accepted and changes nothing.
    pub fn write(&mut self, x: usize, y: usize, color: Color)
        requires
            x + y * old(self).width <= old(self).content@.len(),
        ensures
            final(self).width == old(self).width,
            final(self).height == old(self).height,
            final(self).content@ == (if old(self).spec_index(x as int, y as int) < old(
                self,
            ).content@.len() {
                old(self).content@.update(old(self).spec_index(x as int, y as int), color)
            } else {
                old(self).content@
            }),
    {
        let count = self.content.len();
        proof {
            assert(0 <= y * self.width) by (nonlinear_arith)
                requires
                    0 <= y,
                    0 <= self.width,
            ;
        }
        let index = x + y * self.width;
        if index < count {
            self.content.set(index, color);
        }
    }

    /// The colour in column `x` of row `y`, where the place lies within the
    /// content.
    pub fn color_at(self, x: usize, y: usize) -> (c: Option<Color>)
        requires
            x + y * self.width <= usize::MAX,
        ensures
            c == (if self.spec_index(x as int, y as int) < self.content@.len() {
                Some(self.spec_pixel(x as int, y as int))
            } else {
                None
            }),
    {
        proof {
            assert(0 <= y * self.width) by (nonlinear_arith)
                requires
                    0 <= y,
                    0 <= self.width,
            ;
        }
        let index = x + y * self.width;
        if index < self.content.len() {
            Some(self.content[index])
        } else {
            None
        }
    }
}

/// The largest value of a channel in the text of an image.
pub const COLOR_SCALE: usize = 255;

/// The most characters of a line of pixels.
pub const LINE_LIMIT: usize = 69;

/// A pixel in the text of an image: its channels on the scale of the image.
pub open spec fn spec_pixel_text(color: Color) -> Seq<char> {
    color.spec_scale(COLOR_SCALE).spec_raw_integers()
}

/// The number of characters on the last line of the text of the first `n`
/// pixels of a row.
pub open spec fn spec_row_line_size(row: Seq<Color>, n: int) -> nat
    decreases n,
{
    if n <= 0 {
        0
    } else {
        let raw = spec_pixel_text(row[n - 1]);
        let before = spec_row_line_size(row, n - 1);
        if before == 0 {
            raw.len()
        } else if before + raw.len() + 1 <= LINE_LIMIT {
            before + raw.len() + 1
        } else {
            raw.len()
        }
    }
}

/// The text of the first `n` pixels of a row: the pixels with a space
/// between them, or with a line break where the space and the next pixel
/// would take the line beyond its limit.
pub open spec fn spec_row_text(row: Seq<Color>, n: int) -> Seq<char>
    decreases n,
{
    if n <= 0 {
        Seq::empty()
    } else {
        let raw = spec_pixel_text(row[n - 1]);
        let before = spec_row_line_size(row, n - 1);
        if before == 0 {
            spec_row_text(row, n - 1) + raw
        } else if before + raw.len() + 1 <= LINE_LIMIT {
            spec_row_text(row, n - 1).push(' ') + raw
        } else {
            spec_row_text(row, n - 1).push('\n') + raw
        }
    }
}

/// The text of the first `n` rows of pixels, each row ended by a line
/// break.
pub open spec fn spec_rows_text(content: Seq<Color>, width: int, n: int) -> Seq<char>
    decreases n,
{
    if n <= 0 {
        Seq::empty()
    } else {
        (spec_rows_text(content, width, n - 1) + spec_row_text(
            content.subrange((n - 1) * width, n * width),
            width,
        )).push('\n')
    }
}

/// The head of the text of an image: the magic number, width and height,
/// and the scale of the channels, each on a line of its own; the last line
/// is left open.
pub open spec fn spec_ppm_header(width: usize, height: usize) -> Seq<char> {
    seq!['P', '3', '\n'] + spec_digits(width as nat) + seq![' '] + spec_digits(height as nat)
        + seq!['\n', '2', '5', '5']
}

impl Canvas {
    /// The image as text in the plain portable pixmap format: the head, the
    /// rows of pixels, an empty line, and one space.
    pub open spec fn spec_to_ppm(&self) -> Seq<char> {
        spec_ppm_header(self.width, self.height).push('\n') + spec_rows_text(
            self.content@,
            self.width as int,
            self.height as int,
        ) + seq!['\n', ' ']
    }

    /// The image as text in the plain portable pixmap format.
    pub fn to_ppm(&self) -> (text: String)
        requires
            self.wf(),
            self.width > 0,
        ensures
            text@ == self.spec_to_ppm(),
    {
        let mut text = String::new();
        text.push('P');
        text.push('3');
        text.push('\n');
        let width_text = digits(self.width as u64);
        text.push_str(width_text.as_str());
        text.push(' ');
        let height_text = digits(self.height as u64);
        text.push_str(height_text.as_str());
        text.push('\n');
        text.push('2');
        text.push('5');
        text.push('5');
        assert(text@ =~= spec_ppm_header(self.width, self.height));
        text.push('\n');
        let ghost head = text@;
        let count = self.content.len();
        let mut y: usize = 0;
        while y < self.height
            invariant
                self.wf(),
                self.width > 0,
                count == self.content@.len(),
                y <= self.height,
                head == spec_ppm_header(self.width, self.height).push('\n'),
                text@ == head + spec_rows_text(self.content@, self.width as int, y as int),
            decreases self.height - y,
        {
            let ghost before = text@;
            proof {
                assert(0 <= y * self.width && (y + 1) * self.width <= self.width * self.height)
                    by (nonlinear_arith)
                    requires
                        0 <= y < self.height,
                        0 < self.width,
                ;
                assert((y + 1) * self.width == y * self.width + self.width) by (nonlinear_arith);
            }
            let ghost row = self.content@.subrange(y * self.width, (y + 1) * self.width);
            proof {
                assert(before + spec_row_text(row, 0) =~= before);
            }
            let mut line_size: usize = 0;
            let mut x: usize = 0;
            while x < self.width
                invariant
                    self.wf(),
                    count == self.content@.len(),
                    y < self.height,
                    x <= self.width,
                    0 <= y * self.width,
                    (y + 1) * self.width == y * self.width + self.width,
                    (y + 1) * self.width <= self.width * self.height,
                    row == self.content@.subrange(y * self.width, (y + 1) * self.width),
                    line_size == spec_row_line_size(row, x as int),
                    line_size <= LINE_LIMIT,
                    text@ == before + spec_row_text(row, x as int),
                decreases self.width - x,
            {
                let color = self.content[x + y * self.width];
                assert(row[x as int] == color);
                let scaled = color.scale(COLOR_SCALE);
                let raw = scaled.raw_scale_text();
                let raw_len = scaled.raw_integers_len();
                let ghost so_far = spec_row_text(row, x as int);
                if line_size == 0 {
                    text.push_str(raw.as_str());
                    line_size = raw_len;
                    assert(text@ =~= before + (so_far + raw@));
                } else {
                    let next_line_size = line_size + raw_len + 1;
                    if next_line_size <= LINE_LIMIT {
                        text.push(' ');
                        text.push_str(raw.as_str());
                        line_size = next_line_size;
                        assert(text@ =~= before + (so_far.push(' ') + raw@));
                    } else {
                        text.push('\n');
                        text.push_str(raw.as_str());
                        line_size = raw_len;
                        assert(text@ =~= before + (so_far.push('\n') + raw@));
                    }
                }
                x += 1;
            }
            text.push('\n');
            proof {
                assert(text@ =~= head + (spec_rows_text(
                    self.content@,
                    self.width as int,
                    y as int,
                ) + spec_row_text(row, self.width as int)).push('\n'));
            }
            y += 1;
        }
        text.push('\n');
        text.push(' ');
        assert(text@ =~= self.spec_to_ppm());
        text
    }
}

} // verus!
