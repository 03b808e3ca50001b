//! Canvas geometry: where the photo, the date and the three caption lines go.

use vstd::prelude::*;

verus! {

/// Narrowest photo area the canvas is laid out for, in pixels.
pub const MIN_PHOTO_AREA_WIDTH: u32 = 600;

/// Border kept free on every side of the photo, in pixels.
pub const IMAGE_BORDER: u32 = 100;

/// Height of one line of text, in pixels.
pub const LINE_HEIGHT: u32 = 24;

/// Geometry of one composed image. All lengths are in pixels, the origin is
/// the top left corner of the canvas.
#[derive(Clone, Copy, Debug, PartialEq, Eq, Structural)]
pub struct Layout {
    pub photo_width: u32,
    pub photo_height: u32,
    /// Half the photo's width: the horizontal shift that centres it.
    pub photo_translate: u32,
    pub border: u32,
    /// Width of the canvas.
    pub image_width: u32,
    /// Height of the canvas.
    pub image_height: u32,
    pub line_1_y: u32,
    pub line_2_y: u32,
    pub line_3_y: u32,
    /// Right-aligned anchor of the date line.
    pub line_1_x_r: u32,
    /// Centre anchor of the caption lines.
    pub line_2_x: u32,
}

/// The geometry as mathematical integers.
pub struct Geometry {
    pub photo_width: int,
    pub photo_height: int,
    pub photo_translate: int,
    pub border: int,
    pub image_width: int,
    pub image_height: int,
    pub line_1_y: int,
    pub line_2_y: int,
    pub line_3_y: int,
    pub line_1_x_r: int,
    pub line_2_x: int,
}

impl View for Layout {
    type V = Geometry;

    open spec fn view(&self) -> Geometry {
        Geometry {
            photo_width: self.photo_width as int,
            photo_height: self.photo_height as int,
            photo_translate: self.photo_translate as int,
            border: self.border as int,
            image_width: self.image_width as int,
            image_height: self.image_height as int,
            line_1_y: self.line_1_y as int,
            line_2_y: self.line_2_y as int,
            line_3_y: self.line_3_y as int,
            line_1_x_r: self.line_1_x_r as int,
            line_2_x: self.line_2_x as int,
        }
    }
}

/// Width of the area reserved for the photo: the photo's own width, but never
/// less than the minimum.
pub open spec fn photo_area_width(photo_width: int) -> int {
    if photo_width >= MIN_PHOTO_AREA_WIDTH as int {
        photo_width
    } else {
        MIN_PHOTO_AREA_WIDTH as int
    }
}

/// Width of the canvas: the photo area and a border on both sides.
pub open spec fn canvas_width(photo_width: int, border: int) -> int {
    photo_area_width(photo_width) + 2 * border
}

/// Height of the canvas: the photo, a border above and below, and room for
/// five lines of text under the photo.
pub open spec fn canvas_height(photo_height: int, border: int, line_height: int) -> int {
    photo_height + 2 * border + 5 * line_height
}

/// The geometry of a photo of the given size.
///
/// The three text lines sit two, three and a half, and five line heights
/// under the photo's bottom edge; half a pixel is dropped.
pub open spec fn geometry(photo_width: int, photo_height: int, border: int, line_height: int)
    -> Geometry {
    Geometry {
        photo_width,
        photo_height,
        photo_translate: photo_width / 2,
        border,
        image_width: canvas_width(photo_width, border),
        image_height: canvas_height(photo_height, border, line_height),
        line_1_y: photo_height + border + 2 * line_height,
        line_2_y: photo_height + border + (7 * line_height) / 2,
        line_3_y: photo_height + border + 5 * line_height,
        line_1_x_r: canvas_width(photo_width, border) - border,
        line_2_x: canvas_width(photo_width, border) / 2,
    }
}

/// Whether both sides of the canvas can be held in 32 bits.
pub open spec fn canvas_fits(photo_width: int, photo_height: int, border: int, line_height: int)
    -> bool {
    &&& canvas_width(photo_width, border) <= u32::MAX
    &&& canvas_height(photo_height, border, line_height) <= u32::MAX
}

/// Tells whether `layout` may be called on these values.
pub fn fits(photo_width: u32, photo_height: u32, border: u32, line_height: u32) -> (ok: bool)
    ensures
        ok == canvas_fits(
            photo_width as int,
            photo_height as int,
            border as int,
            line_height as int,
        ),
{
    let area: u64 = if photo_width >= MIN_PHOTO_AREA_WIDTH {
        photo_width as u64
    } else {
        MIN_PHOTO_AREA_WIDTH as u64
    };
    let width: u64 = area + 2 * (border as u64);
    let height: u64 = photo_height as u64 + 2 * (border as u64) + 5 * (line_height as u64);
    width <= u32::MAX as u64 && height <= u32::MAX as u64
}

/// Lays out the canvas for a photo of `photo_width` by `photo_height`.
pub fn layout(photo_width: u32, photo_height: u32, border: u32, line_height: u32) -> (l: Layout)
    requires
        canvas_fits(photo_width as int, photo_height as int, border as int, line_height as int),
    ensures
        l@ == geometry(photo_width as int, photo_height as int, border as int, line_height as int),
{
    let area: u32 = if photo_width >= MIN_PHOTO_AREA_WIDTH {
        photo_width
    } else {
        MIN_PHOTO_AREA_WIDTH
    };
    let image_width: u32 = area + 2 * border;
    let image_height: u32 = photo_height + 2 * border + 5 * line_height;
    let below: u32 = photo_height + border;
    let half_way: u64 = (7 * (line_height as u64)) / 2;
    Layout {
        photo_width,
        photo_height,
        photo_translate: photo_width / 2,
        border,
        image_width,
        image_height,
        line_1_y: below + 2 * line_height,
        line_2_y: below + (half_way as u32),
        line_3_y: below + 5 * line_height,
        line_1_x_r: image_width - border,
        line_2_x: image_width / 2,
    }
}

/// Lays out the canvas where it fits in 32 bits, and says so where it does not.
pub fn checked_layout(photo_width: u32, photo_height: u32, border: u32, line_height: u32) -> (r:
    Option<Layout>)
    ensures
        r is Some == canvas_fits(
            photo_width as int,
            photo_height as int,
            border as int,
            line_height as int,
        ),
        r matches Some(l) ==> l@ == geometry(
            photo_width as int,
            photo_height as int,
            border as int,
            line_height as int,
        ),
{
    if fits(photo_width, photo_height, border, line_height) {
        Some(layout(photo_width, photo_height, border, line_height))
    } else {
        None
    }
}

/// The canvas encloses the photo with its border, and every anchor lies on the canvas.
pub proof fn lemma_anchors_on_canvas(
    photo_width: int,
    photo_height: int,
    border: int,
    line_height: int,
)
    requires
        0 <= photo_width,
        0 <= photo_height,
        0 <= border,
        0 <= line_height,
    ensures
        ({
            let g = geometry(photo_width, photo_height, border, line_height);
            &&& g.image_width >= photo_width + 2 * border
            &&& g.image_width >= MIN_PHOTO_AREA_WIDTH + 2 * border
            &&& photo_height + border <= g.line_1_y <= g.line_2_y <= g.line_3_y
            &&& g.line_3_y + border == g.image_height
            &&& 0 <= g.line_2_x <= g.line_1_x_r <= g.image_width
        }),
{
}

} // verus!
