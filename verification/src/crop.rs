//! Cropping a captured screen image to a window rectangle.

use vstd::prelude::*;

verus! {

/// A window rectangle in virtual-screen coordinates.
#[derive(Clone, Copy, Debug, PartialEq, Eq, Structural)]
pub struct Rect {
    pub left: i32,
    pub top: i32,
    pub right: i32,
    pub bottom: i32,
}

/// A region of an image, in image-local pixel coordinates.
#[derive(Clone, Copy, Debug, PartialEq, Eq, Structural)]
pub struct CropRegion {
    pub x: u32,
    pub y: u32,
    pub width: u32,
    pub height: u32,
}

/// The larger of two integers.
pub open spec fn max_int(a: int, b: int) -> int {
    if a >= b { a } else { b }
}

/// The smaller of two integers.
pub open spec fn min_int(a: int, b: int) -> int {
    if a <= b { a } else { b }
}

/// Start of the cropped span along one axis: the window edge moved into
/// image-local coordinates and held inside the image, that is at least 0 and
/// at most the last pixel.
pub open spec fn span_start(lo: int, origin: int, extent: int) -> int {
    max_int(min_int(lo - origin, extent - 1), 0)
}

/// Length of the cropped span along one axis: the far edge is clamped to the
/// image extent, and a span that would be empty or negative is one pixel.
pub open spec fn span_len(lo: int, hi: int, origin: int, extent: int) -> int {
    max_int(min_int(hi - origin, extent) - span_start(lo, origin, extent), 1)
}

/// The region that a window rectangle selects in an image of the given size
/// whose top-left corner sits at `origin` on the virtual screen.
pub open spec fn crop_region_spec(
    img_w: int,
    img_h: int,
    rect: Rect,
    origin_x: int,
    origin_y: int,
) -> (int, int, int, int) {
    (
        span_start(rect.left as int, origin_x, img_w),
        span_start(rect.top as int, origin_y, img_h),
        span_len(rect.left as int, rect.right as int, origin_x, img_w),
        span_len(rect.top as int, rect.bottom as int, origin_y, img_h),
    )
}

fn axis_span(lo: i32, hi: i32, origin: i32, extent: u32) -> (r: (u32, u32))
    ensures
        r.0 == span_start(lo as int, origin as int, extent as int),
        r.1 == span_len(lo as int, hi as int, origin as int, extent as int),
{
    let mut start: i64 = lo as i64 - origin as i64;
    if start > extent as i64 - 1 {
        start = extent as i64 - 1;
    }
    if start < 0 {
        start = 0;
    }
    let mut end: i64 = hi as i64 - origin as i64;
    if end > extent as i64 {
        end = extent as i64;
    }
    let mut len: i64 = end - start;
    if len < 1 {
        len = 1;
    }
    (start as u32, len as u32)
}

/// Computes the crop region for a window rectangle. In an image that has at
/// least one pixel the region lies inside the image, wherever the window is.
pub fn crop_region(img_w: u32, img_h: u32, rect: Rect, origin_x: i32, origin_y: i32) -> (r:
    CropRegion)
    ensures
        (r.x as int, r.y as int, r.width as int, r.height as int) == crop_region_spec(
            img_w as int,
            img_h as int,
            rect,
            origin_x as int,
            origin_y as int,
        ),
        r.width >= 1,
        r.height >= 1,
        img_w >= 1 ==> r.x < img_w && r.x + r.width <= img_w,
        img_h >= 1 ==> r.y < img_h && r.y + r.height <= img_h,
{
    let (x, width) = axis_span(rect.left, rect.right, origin_x, img_w);
    let (y, height) = axis_span(rect.top, rect.bottom, origin_y, img_h);
    CropRegion { x, y, width, height }
}

/// A decoded image of the `image` crate, carried through as an opaque value.
#[verifier::external_type_specification]
#[verifier::external_body]
pub struct ExDynamicImage(image::DynamicImage);

/// Width and height of an image, in pixels.
pub uninterp spec fn image_dimensions(img: image::DynamicImage) -> (nat, nat);

/// The pixels of an image as RGBA bytes, keyed by `(column, row)`.
pub uninterp spec fn image_pixels(img: image::DynamicImage) -> Map<(int, int), (u8, u8, u8, u8)>;

/// Where a requested cut-out starts along one axis once it is held inside an
/// image of the given extent.
pub open spec fn cut_start(start: int, extent: int) -> int {
    min_int(start, extent)
}

/// How long a requested cut-out is along one axis once it is held inside an
/// image of the given extent.
pub open spec fn cut_len(start: int, len: int, extent: int) -> int {
    min_int(len, extent - cut_start(start, extent))
}

/// `GenericImageView::dimensions` on a `DynamicImage`: the width and height
/// of the underlying buffer.
#[verifier::external_body]
fn image_size(img: &image::DynamicImage) -> (r: (u32, u32))
    ensures
        (r.0 as nat, r.1 as nat) == image_dimensions(*img),
{
    image::GenericImageView::dimensions(img)
}

/// `DynamicImage::crop_imm`: a new image holding the cut-out delimited by the
/// region. The crate first moves the corner to at most the image's width and
/// height and shortens the sides to what is left from there; the result has
/// exactly that size and holds the source pixels of that rectangle.
#[verifier::external_body]
fn cut_out(img: &image::DynamicImage, region: CropRegion) -> (out: image::DynamicImage)
    ensures
        image_dimensions(out).0 == cut_len(
            region.x as int,
            region.width as int,
            image_dimensions(*img).0 as int,
        ),
        image_dimensions(out).1 == cut_len(
            region.y as int,
            region.height as int,
            image_dimensions(*img).1 as int,
        ),
        forall|i: int, j: int|
            0 <= i < image_dimensions(out).0 && 0 <= j < image_dimensions(out).1
                ==> #[trigger] image_pixels(out)[(i, j)] == image_pixels(*img)[(
                cut_start(region.x as int, image_dimensions(*img).0 as int) + i,
                cut_start(region.y as int, image_dimensions(*img).1 as int) + j,
            )],
{
    img.crop_imm(region.x, region.y, region.width, region.height)
}

/// The region of the image that ends up in the output when a window rectangle
/// is cropped out of an image: the computed crop region, held inside the image.
/// The two differ only for an image without pixels.
pub open spec fn window_cut(img_w: int, img_h: int, rect: Rect, origin_x: int, origin_y: int) -> (
    int,
    int,
    int,
    int,
) {
    let r = crop_region_spec(img_w, img_h, rect, origin_x, origin_y);
    (cut_start(r.0, img_w), cut_start(r.1, img_h), cut_len(r.0, r.2, img_w), cut_len(r.1, r.3, img_h))
}

/// Cropping an image that has at least one pixel always yields a region that
/// is at least one pixel wide and high and lies inside the image, wherever
/// the window is: inside, partly outside or wholly outside the image. That
/// region is what is cut out.
pub proof fn lemma_crop_stays_inside(img_w: nat, img_h: nat, rect: Rect, origin_x: int, origin_y: int)
    requires
        img_w >= 1,
        img_h >= 1,
    ensures
        ({
            let region = crop_region_spec(img_w as int, img_h as int, rect, origin_x, origin_y);
            &&& 0 <= region.0 && 1 <= region.2 && region.0 + region.2 <= img_w
            &&& 0 <= region.1 && 1 <= region.3 && region.1 + region.3 <= img_h
            &&& window_cut(img_w as int, img_h as int, rect, origin_x, origin_y) == region
        }),
{
}

/// Crops a captured image to a window rectangle. `origin_x` and `origin_y`
/// are the virtual-screen coordinates of the image's top-left pixel.
///
/// For an image that has at least one pixel the output is the computed crop
/// region: at least one pixel wide and high, no larger than the image, and
/// filled with the image's pixels of that region. An image without pixels
/// gives an output without pixels.
pub fn crop_to_window(img: &image::DynamicImage, rect: Rect, origin_x: i32, origin_y: i32) -> (out:
    image::DynamicImage)
    ensures
        ({
            let (w, h) = image_dimensions(*img);
            let region = crop_region_spec(w as int, h as int, rect, origin_x as int, origin_y as int);
            let cut = window_cut(w as int, h as int, rect, origin_x as int, origin_y as int);
            &&& image_dimensions(out) == (cut.2 as nat, cut.3 as nat)
            &&& forall|i: int, j: int|
                0 <= i < cut.2 && 0 <= j < cut.3 ==> #[trigger] image_pixels(out)[(i, j)]
                    == image_pixels(*img)[(cut.0 + i, cut.1 + j)]
            &&& w >= 1 && h >= 1 ==> {
                &&& cut == region
                &&& 1 <= region.2 <= w
                &&& 1 <= region.3 <= h
                &&& 0 <= region.0 && region.0 + region.2 <= w
                &&& 0 <= region.1 && region.1 + region.3 <= h
            }
            &&& (w == 0 || h == 0) ==> cut.2 == 0 || cut.3 == 0
        }),
{
    let (w, h) = image_size(img);
    let region = crop_region(w, h, rect, origin_x, origin_y);
    cut_out(img, region)
}

} // verus!
