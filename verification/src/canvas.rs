//! The empty grid that every game starts from, drawn on an image buffer.
//!
//! The buffer belongs to the `image` crate and the drawing to `imageproc`.
//! What a buffer holds is named by `canvas_size` and `canvas_pixels`; the
//! contracts of the calls into the two crates are stated over those names
//! and are taken on trust, and the grid is proved from them.

use vstd::prelude::*;

verus! {

/// A drawing surface: an `image::RgbImage`, kept out of the verifier's
/// sight. `canvas_size` and `canvas_pixels` name what it holds.
#[verifier::external_body]
pub struct Canvas {
    image: image::RgbImage,
}

/// Width and height of a canvas, in pixels.
pub uninterp spec fn canvas_size(canvas: Canvas) -> (int, int);

/// The colour of each pixel of a canvas, by column and row.
pub uninterp spec fn canvas_pixels(canvas: Canvas) -> Map<(int, int), (u8, u8, u8)>;

/// The side of the square canvas.
pub const CANVAS_SIZE: u32 = 300;

/// The colour of the squares.
pub const BACKGROUND: (u8, u8, u8) = (255, 255, 255);

/// The colour of the grid lines.
pub const GRAY: (u8, u8, u8) = (128, 128, 128);

/// The colour of the frame round the selected square.
pub const SELECTION: (u8, u8, u8) = (255, 0, 0);

/// `(x, y)` lies on the canvas.
pub open spec fn on_canvas(canvas: Canvas, x: int, y: int) -> bool {
    0 <= x < canvas_size(canvas).0 && 0 <= y < canvas_size(canvas).1
}

/// `(x, y)` lies in the rectangle with the given corner and size.
pub open spec fn in_rect(x: int, y: int, left: int, top: int, width: int, height: int) -> bool {
    left <= x < left + width && top <= y < top + height
}

/// A coordinate on one of the two grid lines, each four pixels thick.
pub open spec fn on_grid_line(v: int) -> bool {
    98 <= v < 102 || 198 <= v < 202
}

/// The colour of pixel `(x, y)` of the empty grid.
pub open spec fn new_game_pixel(x: int, y: int) -> (u8, u8, u8) {
    if on_grid_line(x) || on_grid_line(y) {
        GRAY
    } else {
        BACKGROUND
    }
}

/// The top-left corner of square `index`: the squares lie a hundred pixels
/// apart, three to a row.
pub open spec fn square_origin_of(index: int) -> (int, int) {
    (100 * (index % 3), 100 * (index / 3))
}

/// The left edge of the frame round square `cursor`.
pub open spec fn outline_left(cursor: int) -> int {
    square_origin_of(cursor).0 + 6
}

/// The top edge of the frame round square `cursor`.
pub open spec fn outline_top(cursor: int) -> int {
    square_origin_of(cursor).1 + 6
}

/// `(x, y)` lies on the frame round square `cursor`: a square of side 88
/// without the square of side 82 inside it.
pub open spec fn on_outline(cursor: int, x: int, y: int) -> bool {
    &&& in_rect(x, y, outline_left(cursor), outline_top(cursor), 88, 88)
    &&& !in_rect(x, y, outline_left(cursor) + 3, outline_top(cursor) + 3, 82, 82)
}

/// Calls `image::ImageBuffer::new`. The buffer has the given size, holds a
/// colour for each of its pixels and, as the crate documents, every pixel
/// is zero. The crate multiplies the three samples of a pixel by the width
/// and then by the height and panics when either product overflows
/// `usize`; the vector it then makes cannot be longer than `isize::MAX`.
/// `requires` excludes both.
#[verifier::external_body]
fn blank_canvas(width: u32, height: u32) -> (canvas: Canvas)
    requires
        3 * width <= usize::MAX,
        3 * width * height <= isize::MAX,
    ensures
        canvas_size(canvas) == (width as int, height as int),
        forall|x: int, y: int|
            #![trigger canvas_pixels(canvas)[(x, y)]]
            #![trigger canvas_pixels(canvas).dom().contains((x, y))]
            0 <= x < width && 0 <= y < height ==> canvas_pixels(canvas).dom().contains((x, y))
                && canvas_pixels(canvas)[(x, y)] == (0u8, 0u8, 0u8),
{
    Canvas { image: image::ImageBuffer::new(width, height) }
}

/// Calls `imageproc::drawing::draw_filled_rect_mut` with the rectangle
/// `Rect::at(left, top).of_size(width, height)`. The size of the canvas
/// stays and the canvas holds a colour for each of its pixels, before and
/// after; every pixel of the canvas inside the rectangle takes the colour
/// and every other pixel keeps its own. `requires` excludes an empty
/// rectangle or canvas, on which the crate panics, and sizes that do not
/// fit the `i32` arithmetic by which the crate finds the far edges.
#[verifier::external_body]
fn fill_rect(
    canvas: &mut Canvas,
    left: i32,
    top: i32,
    width: u32,
    height: u32,
    color: (u8, u8, u8),
)
    requires
        0 < width <= i32::MAX,
        0 < height <= i32::MAX,
        left + width <= i32::MAX,
        top + height <= i32::MAX,
        0 < canvas_size(*old(canvas)).0 <= i32::MAX,
        0 < canvas_size(*old(canvas)).1 <= i32::MAX,
    ensures
        canvas_size(*final(canvas)) == canvas_size(*old(canvas)),
        forall|x: int, y: int|
            #![trigger canvas_pixels(*final(canvas))[(x, y)]]
            #![trigger canvas_pixels(*final(canvas)).dom().contains((x, y))]
            on_canvas(*old(canvas), x, y) ==> canvas_pixels(*old(canvas)).dom().contains((x, y))
                && canvas_pixels(*final(canvas)).dom().contains((x, y))
                && canvas_pixels(*final(canvas))[(x, y)] == if in_rect(
                x,
                y,
                left as int,
                top as int,
                width as int,
                height as int,
            ) {
                color
            } else {
                canvas_pixels(*old(canvas))[(x, y)]
            },
{
    let rect = imageproc::rect::Rect::at(left, top).of_size(width, height);
    let pixel = image::Rgb([color.0, color.1, color.2]);
    imageproc::drawing::draw_filled_rect_mut(&mut canvas.image, rect, pixel);
}

/// Calls `image::ImageBuffer::dimensions`: the width and the height. The
/// canvas holds a colour for each pixel within them.
#[verifier::external_body]
fn dimensions(canvas: &Canvas) -> (size: (u32, u32))
    ensures
        (size.0 as int, size.1 as int) == canvas_size(*canvas),
        forall|x: int, y: int|
            0 <= x < size.0 && 0 <= y < size.1 ==> #[trigger] canvas_pixels(*canvas).dom().contains(
                (x, y),
            ),
{
    canvas.image.dimensions()
}

/// Calls `image::ImageBuffer::get_pixel`: the colour that the canvas holds
/// at `(x, y)`. The call panics off the canvas, which `requires` excludes.
#[verifier::external_body]
fn pixel_at(canvas: &Canvas, x: u32, y: u32) -> (color: (u8, u8, u8))
    requires
        on_canvas(*canvas, x as int, y as int),
        canvas_pixels(*canvas).dom().contains((x as int, y as int)),
    ensures
        color == canvas_pixels(*canvas)[(x as int, y as int)],
{
    let pixel = canvas.image.get_pixel(x, y);
    (pixel.0[0], pixel.0[1], pixel.0[2])
}

impl Canvas {
    /// The width of the canvas.
    pub fn width(&self) -> (w: u32)
        ensures
            w == canvas_size(*self).0,
    {
        dimensions(self).0
    }

    /// The height of the canvas.
    pub fn height(&self) -> (h: u32)
        ensures
            h == canvas_size(*self).1,
    {
        dimensions(self).1
    }

    /// The colour at `(x, y)`, or `None` off the canvas.
    pub fn pixel(&self, x: u32, y: u32) -> (r: Option<(u8, u8, u8)>)
        ensures
            on_canvas(*self, x as int, y as int) ==> canvas_pixels(*self).dom().contains(
                (x as int, y as int),
            ) && r == Some(canvas_pixels(*self)[(x as int, y as int)]),
            !on_canvas(*self, x as int, y as int) ==> r is None,
    {
        let size = dimensions(self);
        if x < size.0 && y < size.1 {
            Some(pixel_at(self, x, y))
        } else {
            None
        }
    }
}

/// The top-left corner of square `index` on the canvas, if there is such a
/// square.
pub fn square_origin(index: usize) -> (r: Option<(u32, u32)>)
    ensures
        match r {
            Some(at) => index < 9 && (at.0 as int, at.1 as int) == square_origin_of(index as int),
            None => index >= 9,
        },
{
    if index < 9 {
        Some(((100 * (index % 3)) as u32, (100 * (index / 3)) as u32))
    } else {
        None
    }
}

/// Draws the empty grid: a square canvas in the background colour with two
/// vertical and two horizontal lines that part it into nine squares.
pub fn draw_new_game_canvas() -> (canvas: Canvas)
    ensures
        canvas_size(canvas) == (CANVAS_SIZE as int, CANVAS_SIZE as int),
        forall|x: int, y: int|
            #![trigger canvas_pixels(canvas)[(x, y)]]
            #![trigger canvas_pixels(canvas).dom().contains((x, y))]
            0 <= x < CANVAS_SIZE && 0 <= y < CANVAS_SIZE ==> canvas_pixels(canvas).dom().contains(
                (x, y),
            ) && canvas_pixels(canvas)[(x, y)] == new_game_pixel(x, y),
{
    let mut canvas = blank_canvas(CANVAS_SIZE, CANVAS_SIZE);
    fill_rect(&mut canvas, 0, 0, CANVAS_SIZE, CANVAS_SIZE, BACKGROUND);
    fill_rect(&mut canvas, 98, 0, 4, CANVAS_SIZE, GRAY);
    fill_rect(&mut canvas, 198, 0, 4, CANVAS_SIZE, GRAY);
    fill_rect(&mut canvas, 0, 98, CANVAS_SIZE, 4, GRAY);
    fill_rect(&mut canvas, 0, 198, CANVAS_SIZE, 4, GRAY);
    canvas
}

/// Draws the frame round square `cursor` on a canvas of the size of the
/// grid. Says whether it drew: on any other canvas, or for a cursor off the
/// grid, nothing is drawn.
pub fn draw_select_outline(canvas: &mut Canvas, cursor: usize) -> (drawn: bool)
    ensures
        drawn == (cursor < 9 && canvas_size(*old(canvas)) == (CANVAS_SIZE as int, CANVAS_SIZE as int)),
        !drawn ==> *final(canvas) == *old(canvas),
        canvas_size(*final(canvas)) == canvas_size(*old(canvas)),
        drawn ==> forall|x: int, y: int|
            #![trigger canvas_pixels(*final(canvas))[(x, y)]]
            #![trigger canvas_pixels(*final(canvas)).dom().contains((x, y))]
            on_canvas(*old(canvas), x, y) ==> canvas_pixels(*old(canvas)).dom().contains((x, y))
                && canvas_pixels(*final(canvas)).dom().contains((x, y))
                && canvas_pixels(*final(canvas))[(x, y)] == if on_outline(
                cursor as int,
                x,
                y,
            ) {
                SELECTION
            } else {
                canvas_pixels(*old(canvas))[(x, y)]
            },
{
    let size = dimensions(canvas);
    if cursor >= 9 || size.0 != CANVAS_SIZE || size.1 != CANVAS_SIZE {
        return false;
    }
    let left: i32 = (100 * (cursor % 3) + 6) as i32;
    let top: i32 = (100 * (cursor / 3) + 6) as i32;
    assert(left == outline_left(cursor as int) && top == outline_top(cursor as int));
    fill_rect(canvas, left, top, 88, 3, SELECTION);
    fill_rect(canvas, left, top + 85, 88, 3, SELECTION);
    fill_rect(canvas, left, top + 3, 3, 82, SELECTION);
    fill_rect(canvas, left + 85, top + 3, 3, 82, SELECTION);
    true
}

} // verus!
