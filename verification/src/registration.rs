//! Where each channel goes on the common canvas.
//!
//! Every channel raster covers a bounding box of the slide at a scale of its
//! own. The channel with the least scale sets the scale of the canvas; the
//! others are resampled to it. This module computes the sizes and offsets.

use crate::error::InvalidGeometry;
use crate::geometry::{
    lemma_round_div_exact, lemma_round_div_same_fraction, minimum_scale, round_div, BBox, ImgScale,
    ImgSize, Ratio,
};
use vstd::prelude::*;

verus! {

/// One channel's geometry: its footprint on the slide, the size of its
/// raster, the scale between the two, and the footprint's corner in pixels
/// of that raster.
#[derive(Debug, Clone, Copy, PartialEq, Eq, Structural)]
pub struct ImageDownscalePosition {
    /// Width and height of the footprint, in units of the slide.
    pub full_size: ImgSize,
    pub full_bbox: BBox,
    /// Width and height of the raster, in pixels.
    pub scaled_size: ImgSize,
    /// The footprint's corner divided by the scale.
    pub scaled_offset: ImgSize,
    pub scale: ImgScale,
}

impl ImageDownscalePosition {
    /// The value is what `calculate_img_offset` derives from its own raster
    /// size and bounding box.
    pub open spec fn wf(self) -> bool {
        img_offset_of(self.scaled_size.1, self.scaled_size.0, self.full_bbox) == Ok::<
            ImageDownscalePosition,
            InvalidGeometry,
        >(self)
    }
}

/// The geometry of the three channels.
#[derive(Debug, Clone, Copy, PartialEq, Eq, Structural)]
pub struct ImageOffsets {
    pub red: ImageDownscalePosition,
    pub green: ImageDownscalePosition,
    pub blue: ImageDownscalePosition,
}

/// The rectangle of the canvas that a channel fills.
#[derive(Debug, Clone, Copy, PartialEq, Eq, Structural)]
pub struct PreparedImagePosition {
    pub target_size: ImgSize,
    pub target_offset: ImgSize,
}

/// A channel's rectangle on the canvas, and whether its raster has to be
/// resampled to fill it.
#[derive(Debug, Clone, Copy, PartialEq, Eq, Structural)]
pub struct ChannelPlan {
    pub position: PreparedImagePosition,
    pub resample: bool,
}

/// All that compositing needs to know about geometry.
#[derive(Debug, Clone, Copy, PartialEq, Eq, Structural)]
pub struct RegistrationPlan {
    pub minimum_scale: ImgScale,
    pub canvas_size: ImgSize,
    pub red: ChannelPlan,
    pub green: ChannelPlan,
    pub blue: ChannelPlan,
}

/// The geometry of a raster of `img_width` by `img_height` pixels that covers
/// `img_bbox`: the scale on each axis is the extent of the box over the
/// pixel count, and the offset is the corner of the box over that scale.
pub open spec fn img_offset_of(img_height: u32, img_width: u32, img_bbox: BBox) -> Result<
    ImageDownscalePosition,
    InvalidGeometry,
> {
    if !img_bbox.wf() || img_width == 0 || img_height == 0 {
        Err(InvalidGeometry::ZeroExtent)
    } else {
        let true_width = img_bbox.extent_x() as u32;
        let true_height = img_bbox.extent_y() as u32;
        let scale = ImgScale(
            Ratio { num: true_width, den: img_width },
            Ratio { num: true_height, den: img_height },
        );
        let offset_x = scale.0.divide_round(img_bbox.min_x as int);
        let offset_y = scale.1.divide_round(img_bbox.min_y as int);
        if offset_x > u32::MAX || offset_y > u32::MAX {
            Err(InvalidGeometry::TooLarge)
        } else {
            Ok(
                ImageDownscalePosition {
                    full_size: ImgSize(true_width, true_height),
                    full_bbox: img_bbox,
                    scaled_size: ImgSize(img_width, img_height),
                    scaled_offset: ImgSize(offset_x as u32, offset_y as u32),
                    scale,
                },
            )
        }
    }
}

/// Derives a channel's geometry from the size of its raster and its
/// bounding box. An empty box and a raster without pixels are rejected, so
/// the scale that comes out is greater than zero on both axes.
pub fn calculate_img_offset(img_height: u32, img_width: u32, img_bbox: BBox) -> (r: Result<
    ImageDownscalePosition,
    InvalidGeometry,
>)
    ensures
        r == img_offset_of(img_height, img_width, img_bbox),
        r matches Ok(p) ==> p.scale.positive() && p.wf(),
        r == Err::<ImageDownscalePosition, InvalidGeometry>(InvalidGeometry::ZeroExtent) <==> (
        !img_bbox.wf() || img_width == 0 || img_height == 0),
{
    if !img_bbox.is_valid() || img_width == 0 || img_height == 0 {
        return Err(InvalidGeometry::ZeroExtent);
    }
    let true_width = img_bbox.max_x - img_bbox.min_x;
    let true_height = img_bbox.max_y - img_bbox.min_y;
    let scale = ImgScale(
        Ratio { num: true_width, den: img_width },
        Ratio { num: true_height, den: img_height },
    );
    let offset_x = scale.0.nearest_quotient(img_bbox.min_x);
    let offset_y = scale.1.nearest_quotient(img_bbox.min_y);
    if offset_x > u32::MAX as u64 || offset_y > u32::MAX as u64 {
        return Err(InvalidGeometry::TooLarge);
    }
    Ok(
        ImageDownscalePosition {
            full_size: ImgSize(true_width, true_height),
            full_bbox: img_bbox,
            scaled_size: ImgSize(img_width, img_height),
            scaled_offset: ImgSize(offset_x as u32, offset_y as u32),
            scale,
        },
    )
}

/// The scale of the channel that was reduced the least, axis by axis. It is
/// the scale that the canvas takes.
pub fn get_minimum_downscale(offsets: &ImageOffsets) -> (m: ImgScale)
    ensures
        m == minimum_scale(offsets.red.scale, offsets.green.scale, offsets.blue.scale),
{
    let min_x = offsets.red.scale.0.smaller(&offsets.green.scale.0).smaller(&offsets.blue.scale.0);
    let min_y = offsets.red.scale.1.smaller(&offsets.green.scale.1).smaller(&offsets.blue.scale.1);
    ImgScale(min_x, min_y)
}

/// The size of the whole slide at a scale: each side divided by the factor
/// and rounded down.
pub open spec fn canvas_size_of(original: ImgSize, downscale: ImgScale) -> Result<
    ImgSize,
    InvalidGeometry,
> {
    if !downscale.positive() {
        Err(InvalidGeometry::ZeroExtent)
    } else {
        let width = downscale.0.divide_floor(original.0 as int);
        let height = downscale.1.divide_floor(original.1 as int);
        if width == 0 || height == 0 {
            Err(InvalidGeometry::ZeroTarget)
        } else if width > u32::MAX || height > u32::MAX {
            Err(InvalidGeometry::TooLarge)
        } else {
            Ok(ImgSize(width as u32, height as u32))
        }
    }
}

/// Computes the size of the canvas: the whole slide at the given scale. A
/// canvas without pixels is an error.
pub fn get_downscaled_size_of_original(original: ImgSize, downscale: ImgScale) -> (r: Result<
    ImgSize,
    InvalidGeometry,
>)
    ensures
        r == canvas_size_of(original, downscale),
        r matches Ok(size) ==> size.positive(),
{
    if !downscale.is_positive() {
        return Err(InvalidGeometry::ZeroExtent);
    }
    let width = downscale.0.floor_quotient(original.0);
    let height = downscale.1.floor_quotient(original.1);
    if width == 0 || height == 0 {
        Err(InvalidGeometry::ZeroTarget)
    } else if width > u32::MAX as u64 || height > u32::MAX as u64 {
        Err(InvalidGeometry::TooLarge)
    } else {
        Ok(ImgSize(width as u32, height as u32))
    }
}

/// The rectangle that a channel fills at another scale: the extent and the
/// corner of its bounding box, each divided by the factor and rounded to the
/// nearest pixel.
pub open spec fn target_position_of(
    image: ImageDownscalePosition,
    target_scale: ImgScale,
) -> Result<PreparedImagePosition, InvalidGeometry> {
    if !target_scale.positive() {
        Err(InvalidGeometry::ZeroExtent)
    } else {
        let width = target_scale.0.divide_round(image.full_size.0 as int);
        let height = target_scale.1.divide_round(image.full_size.1 as int);
        let offset_x = target_scale.0.divide_round(image.full_bbox.min_x as int);
        let offset_y = target_scale.1.divide_round(image.full_bbox.min_y as int);
        if width == 0 || height == 0 {
            Err(InvalidGeometry::ZeroTarget)
        } else if width > u32::MAX || height > u32::MAX || offset_x > u32::MAX || offset_y
            > u32::MAX {
            Err(InvalidGeometry::TooLarge)
        } else {
            Ok(
                PreparedImagePosition {
                    target_size: ImgSize(width as u32, height as u32),
                    target_offset: ImgSize(offset_x as u32, offset_y as u32),
                },
            )
        }
    }
}

/// Computes the size and offset that a channel takes when it is resampled to
/// `target_scale`. A size that rounds to zero pixels is an error.
pub fn calculate_target_size_for_scaled_image(
    image: ImageDownscalePosition,
    target_scale: ImgScale,
) -> (r: Result<PreparedImagePosition, InvalidGeometry>)
    ensures
        r == target_position_of(image, target_scale),
        r matches Ok(p) ==> p.target_size.positive(),
{
    if !target_scale.is_positive() {
        return Err(InvalidGeometry::ZeroExtent);
    }
    let width = target_scale.0.nearest_quotient(image.full_size.0);
    let height = target_scale.1.nearest_quotient(image.full_size.1);
    let offset_x = target_scale.0.nearest_quotient(image.full_bbox.min_x);
    let offset_y = target_scale.1.nearest_quotient(image.full_bbox.min_y);
    if width == 0 || height == 0 {
        Err(InvalidGeometry::ZeroTarget)
    } else if width > u32::MAX as u64 || height > u32::MAX as u64 || offset_x > u32::MAX as u64
        || offset_y > u32::MAX as u64 {
        Err(InvalidGeometry::TooLarge)
    } else {
        Ok(
            PreparedImagePosition {
                target_size: ImgSize(width as u32, height as u32),
                target_offset: ImgSize(offset_x as u32, offset_y as u32),
            },
        )
    }
}

/// What registering one channel against the scale of the canvas yields. A
/// channel that is at that scale already keeps its raster size and its own
/// offset and is not resampled; any other is given the rectangle of
/// `target_position_of`.
pub open spec fn channel_plan_of(channel: ImageDownscalePosition, minimum: ImgScale) -> Result<
    ChannelPlan,
    InvalidGeometry,
> {
    if !minimum.positive() {
        Err(InvalidGeometry::ZeroExtent)
    } else if channel.scale.same(minimum) {
        if channel.scaled_size.positive() {
            Ok(
                ChannelPlan {
                    position: PreparedImagePosition {
                        target_size: channel.scaled_size,
                        target_offset: channel.scaled_offset,
                    },
                    resample: false,
                },
            )
        } else {
            Err(InvalidGeometry::ZeroTarget)
        }
    } else {
        match target_position_of(channel, minimum) {
            Ok(position) => Ok(ChannelPlan { position, resample: true }),
            Err(e) => Err(e),
        }
    }
}

/// Registers one channel against the scale of the canvas.
pub fn register_channel(channel: &ImageDownscalePosition, minimum: ImgScale) -> (r: Result<
    ChannelPlan,
    InvalidGeometry,
>)
    ensures
        r == channel_plan_of(*channel, minimum),
        r matches Ok(plan) ==> plan.position.target_size.positive(),
        minimum.positive() && channel.scale.same(minimum) && channel.scaled_size.positive() ==> r
            == Ok::<ChannelPlan, InvalidGeometry>(
            ChannelPlan {
                position: PreparedImagePosition {
                    target_size: channel.scaled_size,
                    target_offset: channel.scaled_offset,
                },
                resample: false,
            },
        ),
{
    if !minimum.is_positive() {
        return Err(InvalidGeometry::ZeroExtent);
    }
    if channel.scale.is_same(&minimum) {
        if channel.scaled_size.is_positive() {
            Ok(
                ChannelPlan {
                    position: PreparedImagePosition {
                        target_size: channel.scaled_size,
                        target_offset: channel.scaled_offset,
                    },
                    resample: false,
                },
            )
        } else {
            Err(InvalidGeometry::ZeroTarget)
        }
    } else {
        match calculate_target_size_for_scaled_image(*channel, minimum) {
            Ok(position) => Ok(ChannelPlan { position, resample: true }),
            Err(e) => Err(e),
        }
    }
}

/// The plan for three channels and a slide of size `original`: the least
/// scale, the canvas at that scale, and each channel's rectangle. The first
/// failure in the order canvas, red, green, blue is the one reported.
pub open spec fn registration_of(offsets: ImageOffsets, original: ImgSize) -> Result<
    RegistrationPlan,
    InvalidGeometry,
> {
    let minimum = minimum_scale(offsets.red.scale, offsets.green.scale, offsets.blue.scale);
    match canvas_size_of(original, minimum) {
        Err(e) => Err(e),
        Ok(canvas_size) => match channel_plan_of(offsets.red, minimum) {
            Err(e) => Err(e),
            Ok(red) => match channel_plan_of(offsets.green, minimum) {
                Err(e) => Err(e),
                Ok(green) => match channel_plan_of(offsets.blue, minimum) {
                    Err(e) => Err(e),
                    Ok(blue) => Ok(
                        RegistrationPlan { minimum_scale: minimum, canvas_size, red, green, blue },
                    ),
                },
            },
        },
    }
}

impl RegistrationPlan {
    /// The canvas and every channel's rectangle have pixels.
    pub open spec fn positive(self) -> bool {
        &&& self.canvas_size.positive()
        &&& self.red.position.target_size.positive()
        &&& self.green.position.target_size.positive()
        &&& self.blue.position.target_size.positive()
    }
}

/// Plans the registration of three channels on a canvas that holds the whole
/// slide at the least of their scales.
pub fn register(offsets: &ImageOffsets, original: ImgSize) -> (r: Result<
    RegistrationPlan,
    InvalidGeometry,
>)
    ensures
        r == registration_of(*offsets, original),
        r matches Ok(plan) ==> plan.positive(),
{
    let minimum = get_minimum_downscale(offsets);
    let canvas_size = match get_downscaled_size_of_original(original, minimum) {
        Ok(size) => size,
        Err(e) => {
            return Err(e);
        },
    };
    let red = match register_channel(&offsets.red, minimum) {
        Ok(plan) => plan,
        Err(e) => {
            return Err(e);
        },
    };
    let green = match register_channel(&offsets.green, minimum) {
        Ok(plan) => plan,
        Err(e) => {
            return Err(e);
        },
    };
    let blue = match register_channel(&offsets.blue, minimum) {
        Ok(plan) => plan,
        Err(e) => {
            return Err(e);
        },
    };
    Ok(RegistrationPlan { minimum_scale: minimum, canvas_size, red, green, blue })
}

/// A channel that is at the scale of the canvas already would be given its
/// own raster size and its own offset by the resampling formula as well, so
/// keeping it unchanged loses nothing.
pub proof fn lemma_same_scale_keeps_raster(channel: ImageDownscalePosition, minimum: ImgScale)
    requires
        channel.wf(),
        minimum.positive(),
        channel.scale.same(minimum),
    ensures
        target_position_of(channel, minimum) == Ok::<PreparedImagePosition, InvalidGeometry>(
            PreparedImagePosition {
                target_size: channel.scaled_size,
                target_offset: channel.scaled_offset,
            },
        ),
        channel_plan_of(channel, minimum) == Ok::<ChannelPlan, InvalidGeometry>(
            ChannelPlan {
                position: PreparedImagePosition {
                    target_size: channel.scaled_size,
                    target_offset: channel.scaled_offset,
                },
                resample: false,
            },
        ),
{
    lemma_axis_keeps_raster(
        channel.full_bbox.min_x,
        channel.full_size.0,
        channel.scaled_size.0,
        minimum.0,
    );
    lemma_axis_keeps_raster(
        channel.full_bbox.min_y,
        channel.full_size.1,
        channel.scaled_size.1,
        minimum.1,
    );
}

/// One axis of `lemma_same_scale_keeps_raster`: where `extent / pixels` has
/// the value of `target`, dividing the extent by `target` gives the pixel
/// count, and dividing the corner by either gives the same offset.
proof fn lemma_axis_keeps_raster(corner: u32, extent: u32, pixels: u32, target: Ratio)
    requires
        extent > 0,
        pixels > 0,
        target.positive(),
        (Ratio { num: extent, den: pixels }).same(target),
    ensures
        target.divide_round(extent as int) == pixels,
        target.divide_round(corner as int) == (Ratio { num: extent, den: pixels }).divide_round(
            corner as int,
        ),
{
    let (e, p, c) = (extent as int, pixels as int, corner as int);
    let (n, d) = (target.num as int, target.den as int);
    assert(e * d == n * p);
    assert(e * d == p * n) by (nonlinear_arith)
        requires
            e * d == n * p,
    ;
    lemma_round_div_exact(p, n);
    assert((c * d) * e == (c * p) * n) by (nonlinear_arith)
        requires
            e * d == n * p,
    ;
    assert(0 <= c * d && 0 <= c * p) by (nonlinear_arith)
        requires
            0 <= c,
            0 <= d,
            0 <= p,
    ;
    lemma_round_div_same_fraction(c * d, n, c * p, e);
}

/// A channel whose bounding box is the whole of its own raster has scale one
/// and offset zero, and registering it alone changes neither its size nor
/// its offset.
pub proof fn lemma_full_frame_channel(width: u32, height: u32)
    requires
        width > 0,
        height > 0,
    ensures
        ({
            let bbox = BBox { min_x: 0, min_y: 0, max_x: width, max_y: height };
            let unchanged = PreparedImagePosition {
                target_size: ImgSize(width, height),
                target_offset: ImgSize(0, 0),
            };
            &&& img_offset_of(height, width, bbox) matches Ok(channel)
            &&& channel.scale.is_one()
            &&& channel.scaled_size == ImgSize(width, height)
            &&& channel.scaled_offset == ImgSize(0, 0)
            &&& minimum_scale(channel.scale, channel.scale, channel.scale) == channel.scale
            &&& channel_plan_of(channel, channel.scale) == Ok::<ChannelPlan, InvalidGeometry>(
                ChannelPlan { position: unchanged, resample: false },
            )
            &&& target_position_of(channel, channel.scale) == Ok::<
                PreparedImagePosition,
                InvalidGeometry,
            >(unchanged)
        }),
{
    let bbox = BBox { min_x: 0, min_y: 0, max_x: width, max_y: height };
    lemma_round_div_exact(0, width as int);
    lemma_round_div_exact(0, height as int);
    assert(0 * (width as int) == 0 && 0 * (height as int) == 0);
    assert(round_div(0, width as int) == 0);
    assert(round_div(0, height as int) == 0);
    let channel = img_offset_of(height, width, bbox)->Ok_0;
    assert(channel.wf());
    lemma_same_scale_keeps_raster(channel, channel.scale);
}

} // verus!
