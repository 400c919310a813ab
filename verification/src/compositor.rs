//! Compositing: three channel rasters become one RGB raster.
//!
//! Each channel is brought to its rectangle of the canvas, laid on a canvas
//! of transparent black, and collapsed into its colour plane. The output
//! takes its red from the red layer, its green from the green layer and its
//! blue from the blue layer.
//!
//! Resampling uses the nearest source pixel. The channels hold labels and
//! measured values, and a filter that blends neighbours would invent labels
//! that no pixel had.

use crate::color::{converted_value, transparent_black, CollapseColor, CollapseConfig, Rgba8};
use crate::error::InvalidGeometry;
use crate::geometry::{mul_u32, ImgSize};
use crate::raster::{
    blank_grid, collapsed_grid, grid_has, grid_height, grid_wf, grid_width, merged_grid,
    pasted_grid, resized_rows, Raster, Resampling,
};
use crate::registration::{ChannelPlan, RegistrationPlan};
use vstd::prelude::*;

verus! {

/// The rasters of the three channels.
pub struct Images {
    pub red: Raster,
    pub green: Raster,
    pub blue: Raster,
}

/// The channel as it is pasted: resampled to its target size where the plan
/// says so, and unchanged where it does not.
pub open spec fn placed_grid(channel: Seq<Seq<Rgba8>>, plan: ChannelPlan) -> Seq<Seq<Rgba8>> {
    if plan.resample {
        resized_rows(
            channel,
            plan.position.target_size.0,
            plan.position.target_size.1,
            Resampling::Nearest,
        )
    } else {
        channel
    }
}

/// The width that the channel has when it is pasted.
pub open spec fn placed_width(channel: Seq<Seq<Rgba8>>, plan: ChannelPlan) -> int {
    if plan.resample {
        plan.position.target_size.0 as int
    } else {
        grid_width(channel) as int
    }
}

/// The height that the channel has when it is pasted.
pub open spec fn placed_height(channel: Seq<Seq<Rgba8>>, plan: ChannelPlan) -> int {
    if plan.resample {
        plan.position.target_size.1 as int
    } else {
        grid_height(channel) as int
    }
}

/// One channel's layer: the canvas of transparent black with the placed
/// channel pasted at its offset, collapsed into the channel's colour plane.
pub open spec fn layer_grid(
    canvas_size: ImgSize,
    channel: Seq<Seq<Rgba8>>,
    plan: ChannelPlan,
    color: CollapseColor,
    config: CollapseConfig,
) -> Seq<Seq<Rgba8>> {
    collapsed_grid(
        pasted_grid(
            blank_grid(canvas_size.0 as nat, canvas_size.1 as nat, transparent_black()),
            placed_grid(channel, plan),
            plan.position.target_offset.0 as int,
            plan.position.target_offset.1 as int,
        ),
        color,
        config,
    )
}

/// The composite of three channels under a plan.
pub open spec fn composite_of(
    red: Seq<Seq<Rgba8>>,
    green: Seq<Seq<Rgba8>>,
    blue: Seq<Seq<Rgba8>>,
    plan: RegistrationPlan,
    config: CollapseConfig,
) -> Seq<Seq<Rgba8>> {
    merged_grid(
        plan.canvas_size.0 as nat,
        plan.canvas_size.1 as nat,
        layer_grid(plan.canvas_size, red, plan.red, CollapseColor::Red, config),
        layer_grid(plan.canvas_size, green, plan.green, CollapseColor::Green, config),
        layer_grid(plan.canvas_size, blue, plan.blue, CollapseColor::Blue, config),
    )
}

/// Why a raster of this size cannot be made, if it cannot.
pub open spec fn size_fault(size: ImgSize) -> Option<InvalidGeometry> {
    if !size.positive() {
        Some(InvalidGeometry::ZeroTarget)
    } else if size.0 * size.1 > u32::MAX {
        Some(InvalidGeometry::TooLarge)
    } else {
        None
    }
}

/// Why a channel cannot be placed under its plan, if it cannot: its target
/// size is no size of a raster, or its far edge is no 32-bit coordinate.
pub open spec fn channel_fault(channel: Seq<Seq<Rgba8>>, plan: ChannelPlan) -> Option<
    InvalidGeometry,
> {
    if plan.resample && size_fault(plan.position.target_size) is Some {
        size_fault(plan.position.target_size)
    } else if plan.position.target_offset.0 + placed_width(channel, plan) > u32::MAX
        || plan.position.target_offset.1 + placed_height(channel, plan) > u32::MAX {
        Some(InvalidGeometry::TooLarge)
    } else {
        None
    }
}

/// Why three channels cannot be composited under a plan, if they cannot. The
/// canvas is looked at first, then red, green and blue.
pub open spec fn composite_fault(
    red: Seq<Seq<Rgba8>>,
    green: Seq<Seq<Rgba8>>,
    blue: Seq<Seq<Rgba8>>,
    plan: RegistrationPlan,
) -> Option<InvalidGeometry> {
    if size_fault(plan.canvas_size) is Some {
        size_fault(plan.canvas_size)
    } else if channel_fault(red, plan.red) is Some {
        channel_fault(red, plan.red)
    } else if channel_fault(green, plan.green) is Some {
        channel_fault(green, plan.green)
    } else {
        channel_fault(blue, plan.blue)
    }
}

fn check_size(size: ImgSize) -> (fault: Option<InvalidGeometry>)
    ensures
        fault == size_fault(size),
{
    if !size.is_positive() {
        Some(InvalidGeometry::ZeroTarget)
    } else if mul_u32(size.0, size.1) > u32::MAX as u64 {
        Some(InvalidGeometry::TooLarge)
    } else {
        None
    }
}

fn check_channel(channel: &Raster, plan: &ChannelPlan) -> (fault: Option<InvalidGeometry>)
    ensures
        fault == channel_fault(channel@, *plan),
{
    if plan.resample {
        match check_size(plan.position.target_size) {
            Some(e) => {
                return Some(e);
            },
            None => {},
        }
    }
    let (width, height) = if plan.resample {
        (plan.position.target_size.0, plan.position.target_size.1)
    } else {
        (channel.width(), channel.height())
    };
    if plan.position.target_offset.0 as u64 + width as u64 > u32::MAX as u64
        || plan.position.target_offset.1 as u64 + height as u64 > u32::MAX as u64 {
        Some(InvalidGeometry::TooLarge)
    } else {
        None
    }
}

/// Builds the layer of one channel.
fn channel_layer(
    canvas_size: ImgSize,
    channel: Raster,
    plan: &ChannelPlan,
    color: CollapseColor,
    config: &CollapseConfig,
) -> (layer: Raster)
    requires
        size_fault(canvas_size) is None,
        channel_fault(channel@, *plan) is None,
    ensures
        layer@ == layer_grid(canvas_size, channel@, *plan, color, *config),
        grid_width(layer@) == canvas_size.0,
        grid_height(layer@) == canvas_size.1,
{
    channel.shape();
    let placed = if plan.resample {
        channel.resized(
            plan.position.target_size.0,
            plan.position.target_size.1,
            Resampling::Nearest,
        )
    } else {
        channel
    };
    let mut canvas = Raster::filled(canvas_size.0, canvas_size.1, Rgba8::transparent());
    canvas.paste(plan.position.target_offset.0, plan.position.target_offset.1, &placed);
    canvas.collapsed(color, config)
}

/// Composites three channels under a registration plan. All geometry is
/// checked before any raster is made, and a failure leaves nothing behind.
/// Every pixel of the output has full alpha.
pub fn composite(images: Images, plan: &RegistrationPlan, config: &CollapseConfig) -> (r: Result<
    Raster,
    InvalidGeometry,
>)
    ensures
        match r {
            Ok(out) => {
                &&& composite_fault(images.red@, images.green@, images.blue@, *plan) is None
                &&& out@ == composite_of(images.red@, images.green@, images.blue@, *plan, *config)
                &&& grid_wf(out@)
                &&& grid_width(out@) == plan.canvas_size.0
                &&& grid_height(out@) == plan.canvas_size.1
                &&& forall|x: int, y: int| grid_has(out@, x, y) ==> (#[trigger] out@[y][x]).a == 255
            },
            Err(e) => composite_fault(images.red@, images.green@, images.blue@, *plan) == Some(e),
        },
{
    match check_size(plan.canvas_size) {
        Some(e) => {
            return Err(e);
        },
        None => {},
    }
    match check_channel(&images.red, &plan.red) {
        Some(e) => {
            return Err(e);
        },
        None => {},
    }
    match check_channel(&images.green, &plan.green) {
        Some(e) => {
            return Err(e);
        },
        None => {},
    }
    match check_channel(&images.blue, &plan.blue) {
        Some(e) => {
            return Err(e);
        },
        None => {},
    }
    let red = channel_layer(plan.canvas_size, images.red, &plan.red, CollapseColor::Red, config);
    let green = channel_layer(
        plan.canvas_size,
        images.green,
        &plan.green,
        CollapseColor::Green,
        config,
    );
    let blue = channel_layer(plan.canvas_size, images.blue, &plan.blue, CollapseColor::Blue, config);
    let blank = Raster::filled(plan.canvas_size.0, plan.canvas_size.1, Rgba8::transparent());
    let out = Raster::merged(blank, &red, &green, &blue);
    out.shape();
    Ok(out)
}

/// Every pixel of a composite has full alpha, whatever the alpha of the
/// channels.
pub proof fn lemma_composite_is_opaque(
    red: Seq<Seq<Rgba8>>,
    green: Seq<Seq<Rgba8>>,
    blue: Seq<Seq<Rgba8>>,
    plan: RegistrationPlan,
    config: CollapseConfig,
    x: int,
    y: int,
)
    requires
        0 <= x < plan.canvas_size.0,
        0 <= y < plan.canvas_size.1,
    ensures
        composite_of(red, green, blue, plan, config)[y][x].a == 255,
{
}

/// Where a channel that is not resampled covers a position of the canvas,
/// its layer holds there the channel's own pixel, collapsed.
pub proof fn lemma_layer_of_unscaled_channel(
    canvas_size: ImgSize,
    channel: Seq<Seq<Rgba8>>,
    plan: ChannelPlan,
    color: CollapseColor,
    config: CollapseConfig,
    x: int,
    y: int,
)
    requires
        grid_wf(channel),
        !plan.resample,
        0 <= x < canvas_size.0,
        0 <= y < canvas_size.1,
        grid_has(channel, x - plan.position.target_offset.0, y - plan.position.target_offset.1),
    ensures
        layer_grid(canvas_size, channel, plan, color, config)[y][x] == crate::color::collapsed(
            channel[y - plan.position.target_offset.1][x - plan.position.target_offset.0],
            color,
            config,
        ),
{
}

/// Three channels that each fill the whole canvas and are not resampled
/// give, at every position, the pixel made of the red channel's transformed
/// red, the green channel's transformed green and the blue channel's
/// transformed blue, with full alpha. Where the modes keep the values, these
/// are the channels' own values.
pub proof fn lemma_composite_of_aligned_channels(
    red: Seq<Seq<Rgba8>>,
    green: Seq<Seq<Rgba8>>,
    blue: Seq<Seq<Rgba8>>,
    plan: RegistrationPlan,
    config: CollapseConfig,
    x: int,
    y: int,
)
    requires
        grid_wf(red),
        grid_wf(green),
        grid_wf(blue),
        grid_width(red) == plan.canvas_size.0 && grid_height(red) == plan.canvas_size.1,
        grid_width(green) == plan.canvas_size.0 && grid_height(green) == plan.canvas_size.1,
        grid_width(blue) == plan.canvas_size.0 && grid_height(blue) == plan.canvas_size.1,
        !plan.red.resample && plan.red.position.target_offset == ImgSize(0, 0),
        !plan.green.resample && plan.green.position.target_offset == ImgSize(0, 0),
        !plan.blue.resample && plan.blue.position.target_offset == ImgSize(0, 0),
        0 <= x < plan.canvas_size.0,
        0 <= y < plan.canvas_size.1,
    ensures
        composite_of(red, green, blue, plan, config)[y][x] == (Rgba8 {
            r: converted_value(red[y][x].r, config.red),
            g: converted_value(green[y][x].g, config.green),
            b: converted_value(blue[y][x].b, config.blue),
            a: 255,
        }),
{
    lemma_layer_of_unscaled_channel(
        plan.canvas_size,
        red,
        plan.red,
        CollapseColor::Red,
        config,
        x,
        y,
    );
    lemma_layer_of_unscaled_channel(
        plan.canvas_size,
        green,
        plan.green,
        CollapseColor::Green,
        config,
        x,
        y,
    );
    lemma_layer_of_unscaled_channel(
        plan.canvas_size,
        blue,
        plan.blue,
        CollapseColor::Blue,
        config,
        x,
        y,
    );
}

} // verus!
