//! Rasters: images of the `ril` crate, seen as grids of pixels.
//!
//! The grid of an image is the sequence of its rows from top to bottom, each
//! row the sequence of its pixels from left to right. All that this library
//! says about an image, it says about that grid.

use crate::color::{
    collapse_grey_to_color, collapsed, opaque_black, CollapseColor, CollapseConfig, Rgba8,
};
use crate::geometry::mul_u32;
use vstd::prelude::*;

verus! {

/// The grid is a rectangle of at least one pixel, and its pixels can be
/// counted in 32 bits.
pub open spec fn grid_wf(rows: Seq<Seq<Rgba8>>) -> bool {
    &&& rows.len() > 0
    &&& rows[0].len() > 0
    &&& rows.len() * rows[0].len() <= u32::MAX
    &&& forall|y: int| 0 <= y < rows.len() ==> (#[trigger] rows[y]).len() == rows[0].len()
}

pub open spec fn grid_width(rows: Seq<Seq<Rgba8>>) -> nat {
    rows[0].len()
}

pub open spec fn grid_height(rows: Seq<Seq<Rgba8>>) -> nat {
    rows.len()
}

/// The grid has a pixel in column `x` of row `y`.
pub open spec fn grid_has(rows: Seq<Seq<Rgba8>>, x: int, y: int) -> bool {
    0 <= x < grid_width(rows) && 0 <= y < grid_height(rows)
}

/// A grid of one colour.
pub open spec fn blank_grid(width: nat, height: nat, fill: Rgba8) -> Seq<Seq<Rgba8>> {
    Seq::new(height, |y: int| Seq::new(width, |x: int| fill))
}

/// The grid that a row-major list of pixels makes at a given width.
pub open spec fn grid_of_pixels(width: nat, pixels: Seq<Rgba8>) -> Seq<Seq<Rgba8>> {
    Seq::new(
        pixels.len() / width,
        |y: int| Seq::new(width, |x: int| pixels[y * (width as int) + x]),
    )
}

/// The pixels of a grid, row after row.
pub open spec fn pixels_of_grid(rows: Seq<Seq<Rgba8>>) -> Seq<Rgba8> {
    Seq::new(
        grid_height(rows) * grid_width(rows),
        |i: int| rows[i / (grid_width(rows) as int)][i % (grid_width(rows) as int)],
    )
}

/// The grid with one pixel replaced.
pub open spec fn grid_with_pixel(rows: Seq<Seq<Rgba8>>, x: int, y: int, pixel: Rgba8) -> Seq<
    Seq<Rgba8>,
> {
    rows.update(y, rows[y].update(x, pixel))
}

/// The canvas with a patch laid over it, the patch's corner at column `left`
/// of row `top`. Pixels of the patch replace those of the canvas, whatever
/// their alpha; what falls outside the canvas is dropped.
pub open spec fn pasted_grid(
    canvas: Seq<Seq<Rgba8>>,
    patch: Seq<Seq<Rgba8>>,
    left: int,
    top: int,
) -> Seq<Seq<Rgba8>> {
    Seq::new(
        canvas.len(),
        |y: int|
            Seq::new(
                canvas[y].len(),
                |x: int|
                    if left <= x < left + grid_width(patch) && top <= y < top + grid_height(
                        patch,
                    ) {
                        patch[y - top][x - left]
                    } else {
                        canvas[y][x]
                    },
            ),
    )
}

/// Every pixel of the grid collapsed into one colour plane.
pub open spec fn collapsed_grid(
    rows: Seq<Seq<Rgba8>>,
    color: CollapseColor,
    config: CollapseConfig,
) -> Seq<Seq<Rgba8>> {
    Seq::new(
        rows.len(),
        |y: int| Seq::new(rows[y].len(), |x: int| collapsed(rows[y][x], color, config)),
    )
}

/// The pixel of a grid at a position, or opaque black where it has none.
pub open spec fn sample(rows: Seq<Seq<Rgba8>>, x: int, y: int) -> Rgba8 {
    if grid_has(rows, x, y) {
        rows[y][x]
    } else {
        opaque_black()
    }
}

/// The output pixel at a position: red from the red layer, green from the
/// green layer, blue from the blue layer, and full alpha.
pub open spec fn merged_pixel(
    red: Seq<Seq<Rgba8>>,
    green: Seq<Seq<Rgba8>>,
    blue: Seq<Seq<Rgba8>>,
    x: int,
    y: int,
) -> Rgba8 {
    Rgba8 { r: sample(red, x, y).r, g: sample(green, x, y).g, b: sample(blue, x, y).b, a: 255 }
}

/// The three layers merged into a grid of the given size.
pub open spec fn merged_grid(
    width: nat,
    height: nat,
    red: Seq<Seq<Rgba8>>,
    green: Seq<Seq<Rgba8>>,
    blue: Seq<Seq<Rgba8>>,
) -> Seq<Seq<Rgba8>> {
    Seq::new(height, |y: int| Seq::new(width, |x: int| merged_pixel(red, green, blue, x, y)))
}

/// The filter that resampling uses.
#[derive(Clone, Copy, Debug, PartialEq, Eq, Structural)]
pub enum Resampling {
    /// Every pixel of the result is a pixel of the source: edges stay hard.
    Nearest,
    /// Pixels of the result blend neighbouring pixels of the source.
    Bilinear,
}

/// An image of the `ril` crate with RGBA pixels. Nothing of it is visible to
/// the verifier; `image_rows` names what it holds.
#[verifier::external_body]
pub struct RilImage {
    inner: ril::Image<ril::Rgba>,
}

/// The grid of an image: `image_rows(i)[y][x]` is the pixel that `ril` keeps
/// at index `y * width + x` of the image's data.
pub uninterp spec fn image_rows(image: RilImage) -> Seq<Seq<Rgba8>>;

/// The grid that `ril::Image::resized` makes of a grid, for a target size
/// and a filter. The resampling itself is the work of `fast_image_resize`
/// and is not described here.
pub uninterp spec fn resized_rows(
    rows: Seq<Seq<Rgba8>>,
    width: u32,
    height: u32,
    filter: Resampling,
) -> Seq<Seq<Rgba8>>;

/// `ril::Image::new`: an image of the given size with every pixel set to
/// `fill`. It panics on a side of zero, and its pixel count is computed in
/// 32 bits.
#[verifier::external_body]
fn ril_new(width: u32, height: u32, fill: Rgba8) -> (image: RilImage)
    requires
        width > 0,
        height > 0,
        width * height <= u32::MAX,
    ensures
        image_rows(image) == blank_grid(width as nat, height as nat, fill),
{
    let fill = ril::Rgba { r: fill.r, g: fill.g, b: fill.b, a: fill.a };
    RilImage { inner: ril::Image::new(width, height, fill) }
}

/// `ril::Image::from_pixels`: the image that a row-major list of pixels
/// makes at the given width. It panics unless the length is a multiple of
/// the width, and must not be handed an empty list.
#[verifier::external_body]
fn ril_from_pixels(width: u32, pixels: &Vec<Rgba8>) -> (image: RilImage)
    requires
        width > 0,
        0 < pixels.len() <= u32::MAX,
        (pixels.len() as int) % (width as int) == 0,
    ensures
        image_rows(image) == grid_of_pixels(width as nat, pixels@),
{
    let data: Vec<ril::Rgba> = pixels.iter().map(
        |p| ril::Rgba { r: p.r, g: p.g, b: p.b, a: p.a },
    ).collect();
    RilImage { inner: ril::Image::from_pixels(width, data) }
}

/// `ril::Image::width`.
#[verifier::external_body]
fn ril_width(image: &RilImage) -> (width: u32)
    requires
        grid_wf(image_rows(*image)),
    ensures
        width == grid_width(image_rows(*image)),
{
    image.inner.width()
}

/// `ril::Image::height`.
#[verifier::external_body]
fn ril_height(image: &RilImage) -> (height: u32)
    requires
        grid_wf(image_rows(*image)),
    ensures
        height == grid_height(image_rows(*image)),
{
    image.inner.height()
}

/// `ril::Image::get_pixel`: the pixel at a position, and `None` for a
/// position outside the image.
#[verifier::external_body]
fn ril_get_pixel(image: &RilImage, x: u32, y: u32) -> (pixel: Option<Rgba8>)
    requires
        grid_wf(image_rows(*image)),
    ensures
        pixel == (if grid_has(image_rows(*image), x as int, y as int) {
            Some(image_rows(*image)[y as int][x as int])
        } else {
            None
        }),
{
    image.inner.get_pixel(x, y).map(|p| Rgba8 { r: p.r, g: p.g, b: p.b, a: p.a })
}

/// `ril::Image::set_pixel`: replaces the pixel at a position. It panics on a
/// position outside the image.
#[verifier::external_body]
fn ril_set_pixel(image: &mut RilImage, x: u32, y: u32, pixel: Rgba8)
    requires
        grid_wf(image_rows(*old(image))),
        grid_has(image_rows(*old(image)), x as int, y as int),
    ensures
        image_rows(*final(image)) == grid_with_pixel(
            image_rows(*old(image)),
            x as int,
            y as int,
            pixel,
        ),
    no_unwind
{
    image.inner.set_pixel(x, y, ril::Rgba { r: pixel.r, g: pixel.g, b: pixel.b, a: pixel.a });
}

/// `ril::Image::draw` of a `ril::Paste` in the overlay mode `Replace`: every
/// pixel of the patch that falls on the canvas replaces the pixel there. The
/// far edges of the patch are computed in 32 bits.
#[verifier::external_body]
fn ril_paste(canvas: &mut RilImage, left: u32, top: u32, patch: &RilImage)
    requires
        grid_wf(image_rows(*old(canvas))),
        grid_wf(image_rows(*patch)),
        left + grid_width(image_rows(*patch)) <= u32::MAX,
        top + grid_height(image_rows(*patch)) <= u32::MAX,
    ensures
        image_rows(*final(canvas)) == pasted_grid(
            image_rows(*old(canvas)),
            image_rows(*patch),
            left as int,
            top as int,
        ),
    no_unwind
{
    let paste =ril::Paste::new(&patch.inner).with_position(left, top);
    canvas.inner.draw(&paste.with_overlay_mode(ril::OverlayMode::Replace));
}

/// `ril::Image::resized` with the filter `Nearest` or `Bilinear`: an image
/// of the target size. It panics on a side of zero.
#[verifier::external_body]
fn ril_resized(image: RilImage, width: u32, height: u32, filter: Resampling) -> (out: RilImage)
    requires
        grid_wf(image_rows(image)),
        width > 0,
        height > 0,
        width * height <= u32::MAX,
    ensures
        image_rows(out) == resized_rows(image_rows(image), width, height, filter),
        grid_wf(image_rows(out)),
        grid_width(image_rows(out)) == width,
        grid_height(image_rows(out)) == height,
{
    let algorithm = match filter {
        Resampling::Nearest => ril::ResizeAlgorithm::Nearest,
        Resampling::Bilinear => ril::ResizeAlgorithm::Bilinear,
    };
    RilImage { inner: image.inner.resized(width, height, algorithm) }
}

/// `ril::Image::map_pixels` with `collapse_grey_to_color` as the function:
/// an image of the same size in which every pixel is the collapsed pixel of
/// the source.
#[verifier::external_body]
fn ril_map_collapsed(image: RilImage, color: CollapseColor, config: &CollapseConfig) -> (out:
    RilImage)
    requires
        grid_wf(image_rows(image)),
    ensures
        image_rows(out) == collapsed_grid(image_rows(image), color, *config),
{
    let mapped = image.inner.map_pixels(
        |p| {
            let q = collapse_grey_to_color(Rgba8 { r: p.r, g: p.g, b: p.b, a: p.a }, color, config);
            ril::Rgba { r: q.r, g: q.g, b: q.b, a: q.a }
        },
    );
    RilImage { inner: mapped }
}

/// `ril::Image::map_pixels_with_coords` with `merged_pixel_at` as the
/// function: an image of the size of `canvas` in which the pixel at every
/// position is the merged pixel of the three layers at that position.
#[verifier::external_body]
fn ril_map_merged(canvas: RilImage, red: &RilImage, green: &RilImage, blue: &RilImage) -> (out:
    RilImage)
    requires
        grid_wf(image_rows(canvas)),
        grid_wf(image_rows(*red)),
        grid_wf(image_rows(*green)),
        grid_wf(image_rows(*blue)),
    ensures
        image_rows(out) == merged_grid(
            grid_width(image_rows(canvas)),
            grid_height(image_rows(canvas)),
            image_rows(*red),
            image_rows(*green),
            image_rows(*blue),
        ),
{
    let mapped = canvas.inner.map_pixels_with_coords(
        |x, y, _p| {
            let q = merged_pixel_at(red, green, blue, x, y);
            ril::Rgba { r: q.r, g: q.g, b: q.b, a: q.a }
        },
    );
    RilImage { inner: mapped }
}

/// The `data` of a `ril::Image`: its pixels, row after row.
#[verifier::external_body]
fn ril_pixels(image: &RilImage) -> (pixels: Vec<Rgba8>)
    requires
        grid_wf(image_rows(*image)),
    ensures
        pixels@ == pixels_of_grid(image_rows(*image)),
{
    image.inner.data.iter().map(|p| Rgba8 { r: p.r, g: p.g, b: p.b, a: p.a }).collect()
}

/// Reads the three layers at one position and merges what it finds; a layer
/// without a pixel there counts as opaque black.
fn merged_pixel_at(red: &RilImage, green: &RilImage, blue: &RilImage, x: u32, y: u32) -> (pixel:
    Rgba8)
    requires
        grid_wf(image_rows(*red)),
        grid_wf(image_rows(*green)),
        grid_wf(image_rows(*blue)),
    ensures
        pixel == merged_pixel(
            image_rows(*red),
            image_rows(*green),
            image_rows(*blue),
            x as int,
            y as int,
        ),
        pixel.a == 255,
{
    let red_px = match ril_get_pixel(red, x, y) {
        Some(p) => p,
        None => Rgba8::black(),
    };
    let green_px = match ril_get_pixel(green, x, y) {
        Some(p) => p,
        None => Rgba8::black(),
    };
    let blue_px = match ril_get_pixel(blue, x, y) {
        Some(p) => p,
        None => Rgba8::black(),
    };
    Rgba8 { r: red_px.r, g: green_px.g, b: blue_px.b, a: 255 }
}

/// A raster image. Its view is its grid, which is always a rectangle of at
/// least one pixel.
pub struct Raster {
    image: RilImage,
}

impl View for Raster {
    type V = Seq<Seq<Rgba8>>;

    closed spec fn view(&self) -> Seq<Seq<Rgba8>> {
        image_rows(self.image)
    }
}

impl Raster {
    #[verifier::type_invariant]
    spec fn well_formed(self) -> bool {
        grid_wf(image_rows(self.image))
    }

    /// Does nothing when run; to the verifier it shows that the grid of a
    /// raster is well formed.
    pub fn shape(&self)
        ensures
            grid_wf(self@),
            grid_width(self@) <= u32::MAX,
            grid_height(self@) <= u32::MAX,
    {
        proof {
            use_type_invariant(self);
            lemma_grid_sides_fit(self@);
        }
    }

    /// A raster of one colour. There is none with a side of zero pixels or
    /// with more pixels than 32 bits count.
    pub fn new(width: u32, height: u32, fill: Rgba8) -> (r: Option<Raster>)
        ensures
            r is Some <==> width > 0 && height > 0 && width * height <= u32::MAX,
            r matches Some(raster) ==> raster@ == blank_grid(width as nat, height as nat, fill)
                && grid_wf(raster@) && grid_width(raster@) == width && grid_height(raster@)
                == height,
    {
        if width == 0 || height == 0 || mul_u32(width, height) > u32::MAX as u64 {
            return None;
        }
        Some(Raster::filled(width, height, fill))
    }

    /// A raster of one colour and of a size that has been checked.
    pub fn filled(width: u32, height: u32, fill: Rgba8) -> (raster: Raster)
        requires
            width > 0,
            height > 0,
            width * height <= u32::MAX,
        ensures
            raster@ == blank_grid(width as nat, height as nat, fill),
            grid_wf(raster@),
            grid_width(raster@) == width,
            grid_height(raster@) == height,
    {
        let image = ril_new(width, height, fill);
        proof {
            assert(height * width == width * height) by (nonlinear_arith);
        }
        Raster { image }
    }

    /// The raster that a row-major list of pixels makes at a given width.
    /// The list must be a whole number of rows, and at least one.
    pub fn from_pixels(width: u32, pixels: Vec<Rgba8>) -> (r: Option<Raster>)
        ensures
            r is Some <==> width > 0 && 0 < pixels.len() <= u32::MAX && (pixels.len() as int) % (
            width as int) == 0,
            r matches Some(raster) ==> raster@ == grid_of_pixels(width as nat, pixels@) && grid_wf(
                raster@,
            ) && grid_width(raster@) == width && grid_height(raster@) * width == pixels.len(),
    {
        if width == 0 || pixels.len() == 0 || pixels.len() > u32::MAX as usize || pixels.len() % (
        width as usize) != 0 {
            return None;
        }
        proof {
            lemma_grid_of_pixels_wf(width as nat, pixels@);
        }
        let image = ril_from_pixels(width, &pixels);
        Some(Raster { image })
    }

    pub fn width(&self) -> (width: u32)
        ensures
            width == grid_width(self@),
            width > 0,
    {
        proof {
            use_type_invariant(self);
        }
        ril_width(&self.image)
    }

    pub fn height(&self) -> (height: u32)
        ensures
            height == grid_height(self@),
            height > 0,
    {
        proof {
            use_type_invariant(self);
        }
        ril_height(&self.image)
    }

    /// The pixel at column `x` of row `y`, if the raster has one there.
    pub fn get_pixel(&self, x: u32, y: u32) -> (pixel: Option<Rgba8>)
        ensures
            pixel == (if grid_has(self@, x as int, y as int) {
                Some(self@[y as int][x as int])
            } else {
                None
            }),
    {
        proof {
            use_type_invariant(self);
        }
        ril_get_pixel(&self.image, x, y)
    }

    /// Replaces the pixel at column `x` of row `y`.
    pub fn set_pixel(&mut self, x: u32, y: u32, pixel: Rgba8)
        requires
            grid_has(old(self)@, x as int, y as int),
        ensures
            final(self)@ == grid_with_pixel(old(self)@, x as int, y as int, pixel),
            grid_width(final(self)@) == grid_width(old(self)@),
            grid_height(final(self)@) == grid_height(old(self)@),
    {
        proof {
            use_type_invariant(&*self);
        }
        ril_set_pixel(&mut self.image, x, y, pixel);
    }

    /// Lays `patch` over this raster with its corner at column `left` of row
    /// `top`. The far edges of the patch must be 32-bit coordinates.
    pub fn paste(&mut self, left: u32, top: u32, patch: &Raster)
        requires
            left + grid_width(patch@) <= u32::MAX,
            top + grid_height(patch@) <= u32::MAX,
        ensures
            final(self)@ == pasted_grid(old(self)@, patch@, left as int, top as int),
            grid_width(final(self)@) == grid_width(old(self)@),
            grid_height(final(self)@) == grid_height(old(self)@),
    {
        proof {
            use_type_invariant(&*self);
            use_type_invariant(patch);
        }
        ril_paste(&mut self.image, left, top, &patch.image);
    }

    /// Resamples the raster to another size.
    pub fn resized(self, width: u32, height: u32, filter: Resampling) -> (out: Raster)
        requires
            width > 0,
            height > 0,
            width * height <= u32::MAX,
        ensures
            out@ == resized_rows(self@, width, height, filter),
            grid_wf(out@),
            grid_width(out@) == width,
            grid_height(out@) == height,
    {
        proof {
            use_type_invariant(&self);
        }
        let image = ril_resized(self.image, width, height, filter);
        Raster { image }
    }

    /// Collapses every pixel into the colour plane of a channel.
    pub fn collapsed(self, color: CollapseColor, config: &CollapseConfig) -> (out: Raster)
        ensures
            out@ == collapsed_grid(self@, color, *config),
            grid_width(out@) == grid_width(self@),
            grid_height(out@) == grid_height(self@),
    {
        proof {
            use_type_invariant(&self);
        }
        let image = ril_map_collapsed(self.image, color, config);
        Raster { image }
    }

    /// Merges three layers into a raster of the size of `canvas`.
    pub fn merged(canvas: Raster, red: &Raster, green: &Raster, blue: &Raster) -> (out: Raster)
        ensures
            out@ == merged_grid(grid_width(canvas@), grid_height(canvas@), red@, green@, blue@),
            grid_width(out@) == grid_width(canvas@),
            grid_height(out@) == grid_height(canvas@),
    {
        proof {
            use_type_invariant(&canvas);
            use_type_invariant(red);
            use_type_invariant(green);
            use_type_invariant(blue);
        }
        let image = ril_map_merged(canvas.image, &red.image, &green.image, &blue.image);
        Raster { image }
    }

    /// The pixels of the raster, row after row.
    pub fn to_pixels(&self) -> (pixels: Vec<Rgba8>)
        ensures
            pixels@ == pixels_of_grid(self@),
            pixels.len() == grid_width(self@) * grid_height(self@),
    {
        proof {
            use_type_invariant(self);
            assert(grid_width(self@) * grid_height(self@) == grid_height(self@) * grid_width(
                self@,
            )) by (nonlinear_arith);
        }
        ril_pixels(&self.image)
    }
}

/// Each side of a well-formed grid can be counted in 32 bits.
pub proof fn lemma_grid_sides_fit(rows: Seq<Seq<Rgba8>>)
    requires
        grid_wf(rows),
    ensures
        grid_width(rows) <= u32::MAX,
        grid_height(rows) <= u32::MAX,
{
    let w = grid_width(rows) as int;
    let h = grid_height(rows) as int;
    assert(w <= h * w && h <= h * w) by (nonlinear_arith)
        requires
            w >= 1,
            h >= 1,
    ;
}

/// A whole number of rows of pixels makes a well-formed grid.
proof fn lemma_grid_of_pixels_wf(width: nat, pixels: Seq<Rgba8>)
    requires
        width > 0,
        0 < pixels.len() <= u32::MAX,
        pixels.len() % width == 0,
    ensures
        grid_wf(grid_of_pixels(width, pixels)),
        grid_width(grid_of_pixels(width, pixels)) == width,
        grid_height(grid_of_pixels(width, pixels)) * width == pixels.len(),
{
    let len = pixels.len() as int;
    let w = width as int;
    vstd::arithmetic::div_mod::lemma_fundamental_div_mod(len, w);
    assert(w * (len / w) == (len / w) * w) by (nonlinear_arith);
    assert(len / w > 0) by (nonlinear_arith)
        requires
            (len / w) * w == len,
            len > 0,
            w > 0,
    ;
}

} // verus!
