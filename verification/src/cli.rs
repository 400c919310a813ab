//! The two modes of operation, from arguments to result.
//!
//! The argument records are plain data. Reading a command line into them,
//! loading and saving rasters and reporting progress are left to the caller;
//! everything between is done here.

use crate::color::{CollapseConfig, CollapseMode};
use crate::compositor::{composite, composite_fault, composite_of, Images};
use crate::error::InvalidGeometry;
use crate::geometry::{bbox_from, bbox_of, size_from, size_of, ImageBBoxes, ImgSize};
use crate::pyramid::{
    ceil_div, dzi_dimensions, is_zoom_level, layer_plan, layer_steps, DZIDimensions, LayerStep,
    MAX_TILE_SIZE,
};
use crate::raster::{grid_height, grid_width, Raster};
use crate::registration::{
    calculate_img_offset, img_offset_of, register, registration_of, ImageOffsets,
    RegistrationPlan,
};
use vstd::prelude::*;

verus! {

/// The arguments of the mode that registers and composites three channels.
pub struct BitmaskModeArgs {
    /// Compute the geometry only; make no raster.
    pub dry_run: bool,
    pub red_channel_file_path: String,
    pub green_channel_file_path: String,
    pub blue_channel_file_path: String,
    pub red_mode: CollapseMode,
    pub green_mode: CollapseMode,
    pub blue_mode: CollapseMode,
    /// `min_x min_y max_x max_y` of the red channel on the slide.
    pub red_bbox: Vec<u32>,
    pub green_bbox: Vec<u32>,
    pub blue_bbox: Vec<u32>,
    /// Width and height of the whole slide.
    pub source_dim: Vec<u32>,
    pub output_file: String,
}

/// The arguments of the mode that cuts a raster into a pyramid of tiles.
pub struct DZISplitModeArgs {
    pub input_image: String,
    pub output_file_stem: String,
    pub output_folder: String,
    pub tile_size: u32,
    /// The one level to produce, or zero for all of them.
    pub layer_to_prepare: u32,
}

/// The mode that was chosen, with its arguments.
pub enum Commands {
    BitmaskMode(BitmaskModeArgs),
    DZISplitMode(DZISplitModeArgs),
}

/// A parsed command line.
pub struct Cli {
    pub command: Commands,
}

/// Where the rasters of the three channels are found.
pub struct SourceArgs {
    pub red: String,
    pub green: String,
    pub blue: String,
}

/// What the arguments say about geometry, once they have been checked.
#[derive(Debug, Clone, Copy, PartialEq, Eq, Structural)]
pub struct CheckedGeometry {
    pub bboxes: ImageBBoxes,
    pub original: ImgSize,
}

/// The checked geometry of a set of arguments. The boxes are read in the
/// order red, green, blue and the size of the slide after them; the first
/// that is malformed decides the error.
pub open spec fn geometry_of(
    red_bbox: Seq<u32>,
    green_bbox: Seq<u32>,
    blue_bbox: Seq<u32>,
    source_dim: Seq<u32>,
) -> Result<CheckedGeometry, InvalidGeometry> {
    match bbox_of(red_bbox) {
        Err(e) => Err(e),
        Ok(red) => match bbox_of(green_bbox) {
            Err(e) => Err(e),
            Ok(green) => match bbox_of(blue_bbox) {
                Err(e) => Err(e),
                Ok(blue) => match size_of(source_dim) {
                    Err(e) => Err(e),
                    Ok(original) => Ok(
                        CheckedGeometry { bboxes: ImageBBoxes { red, green, blue }, original },
                    ),
                },
            },
        },
    }
}

/// The geometry of three channels of the given raster sizes under checked
/// arguments, and the plan of their registration.
pub open spec fn plan_of(geometry: CheckedGeometry, red: ImgSize, green: ImgSize, blue: ImgSize)
    -> Result<RegistrationPlan, InvalidGeometry> {
    match img_offset_of(red.1, red.0, geometry.bboxes.red) {
        Err(e) => Err(e),
        Ok(red) => match img_offset_of(green.1, green.0, geometry.bboxes.green) {
            Err(e) => Err(e),
            Ok(green) => match img_offset_of(blue.1, blue.0, geometry.bboxes.blue) {
                Err(e) => Err(e),
                Ok(blue) => registration_of(ImageOffsets { red, green, blue }, geometry.original),
            },
        },
    }
}

impl BitmaskModeArgs {
    /// The paths of the three channel rasters.
    pub fn sources(&self) -> (paths: SourceArgs)
        ensures
            paths.red@ == self.red_channel_file_path@,
            paths.green@ == self.green_channel_file_path@,
            paths.blue@ == self.blue_channel_file_path@,
    {
        SourceArgs {
            red: self.red_channel_file_path.clone(),
            green: self.green_channel_file_path.clone(),
            blue: self.blue_channel_file_path.clone(),
        }
    }

    /// The modes of the three channels.
    pub fn config(&self) -> (config: CollapseConfig)
        ensures
            config == (CollapseConfig {
                red: self.red_mode,
                green: self.green_mode,
                blue: self.blue_mode,
            }),
    {
        CollapseConfig { red: self.red_mode, green: self.green_mode, blue: self.blue_mode }
    }

    /// Checks the bounding boxes and the size of the slide. This needs no
    /// raster, so it can be done before any is loaded.
    pub fn geometry(&self) -> (r: Result<CheckedGeometry, InvalidGeometry>)
        ensures
            r == geometry_of(self.red_bbox@, self.green_bbox@, self.blue_bbox@, self.source_dim@),
            r matches Ok(g) ==> g.bboxes.red.wf() && g.bboxes.green.wf() && g.bboxes.blue.wf(),
    {
        let red = match bbox_from(self.red_bbox.as_slice()) {
            Ok(b) => b,
            Err(e) => {
                return Err(e);
            },
        };
        let green = match bbox_from(self.green_bbox.as_slice()) {
            Ok(b) => b,
            Err(e) => {
                return Err(e);
            },
        };
        let blue = match bbox_from(self.blue_bbox.as_slice()) {
            Ok(b) => b,
            Err(e) => {
                return Err(e);
            },
        };
        let original = match size_from(self.source_dim.as_slice()) {
            Ok(s) => s,
            Err(e) => {
                return Err(e);
            },
        };
        Ok(CheckedGeometry { bboxes: ImageBBoxes { red, green, blue }, original })
    }
}

/// Plans the registration of three channels from checked arguments and the
/// sizes of the channel rasters.
pub fn plan_registration(geometry: &CheckedGeometry, red: ImgSize, green: ImgSize, blue: ImgSize)
    -> (r: Result<RegistrationPlan, InvalidGeometry>)
    ensures
        r == plan_of(*geometry, red, green, blue),
        r matches Ok(plan) ==> plan.positive(),
{
    let red = match calculate_img_offset(red.1, red.0, geometry.bboxes.red) {
        Ok(p) => p,
        Err(e) => {
            return Err(e);
        },
    };
    let green = match calculate_img_offset(green.1, green.0, geometry.bboxes.green) {
        Ok(p) => p,
        Err(e) => {
            return Err(e);
        },
    };
    let blue = match calculate_img_offset(blue.1, blue.0, geometry.bboxes.blue) {
        Ok(p) => p,
        Err(e) => {
            return Err(e);
        },
    };
    register(&ImageOffsets { red, green, blue }, geometry.original)
}

/// What the compositing mode yields: the plan, and the composite unless the
/// run was a dry one.
pub struct BitmaskOutcome {
    pub plan: RegistrationPlan,
    pub output: Option<Raster>,
}

/// The size of a grid as a pair of pixel counts.
pub open spec fn grid_size(rows: Seq<Seq<crate::color::Rgba8>>) -> ImgSize {
    ImgSize(grid_width(rows) as u32, grid_height(rows) as u32)
}

/// Runs the compositing mode on three loaded channels: checks the
/// arguments, plans the registration, and composites unless the run is a
/// dry one. The first failure ends the run with its error.
pub fn do_bitmask_mode(args: &BitmaskModeArgs, images: Images) -> (r: Result<
    BitmaskOutcome,
    InvalidGeometry,
>)
    ensures
        ({
            let config = CollapseConfig {
                red: args.red_mode,
                green: args.green_mode,
                blue: args.blue_mode,
            };
            let (red, green, blue) = (images.red@, images.green@, images.blue@);
            match geometry_of(args.red_bbox@, args.green_bbox@, args.blue_bbox@, args.source_dim@) {
                Err(e) => r is Err && r->Err_0 == e,
                Ok(geometry) => match plan_of(
                    geometry,
                    grid_size(red),
                    grid_size(green),
                    grid_size(blue),
                ) {
                    Err(e) => r is Err && r->Err_0 == e,
                    Ok(plan) => if args.dry_run {
                        r is Ok && r->Ok_0.plan == plan && r->Ok_0.output is None
                    } else {
                        match composite_fault(red, green, blue, plan) {
                            Some(e) => r is Err && r->Err_0 == e,
                            None => {
                                &&& r is Ok
                                &&& r->Ok_0.plan == plan
                                &&& r->Ok_0.output is Some
                                &&& r->Ok_0.output->Some_0@ == composite_of(
                                    red,
                                    green,
                                    blue,
                                    plan,
                                    config,
                                )
                            },
                        }
                    },
                },
            }
        }),
{
    let geometry = match args.geometry() {
        Ok(g) => g,
        Err(e) => {
            return Err(e);
        },
    };
    let red = ImgSize(images.red.width(), images.red.height());
    let green = ImgSize(images.green.width(), images.green.height());
    let blue = ImgSize(images.blue.width(), images.blue.height());
    let plan = match plan_registration(&geometry, red, green, blue) {
        Ok(p) => p,
        Err(e) => {
            return Err(e);
        },
    };
    if args.dry_run {
        return Ok(BitmaskOutcome { plan, output: None });
    }
    let config = args.config();
    match composite(images, &plan, &config) {
        Ok(out) => Ok(BitmaskOutcome { plan, output: Some(out) }),
        Err(e) => Err(e),
    }
}

/// What the tiling mode is to do: the shape of the pyramid and the levels
/// to produce, in order.
pub struct DziPlan {
    pub dimensions: DZIDimensions,
    pub steps: Vec<LayerStep>,
}

/// Plans the tiling mode for a raster of the given size: works out the
/// shape of the pyramid and lists the levels to produce.
pub fn do_dzi_split_mode(args: &DZISplitModeArgs, width: u32, height: u32) -> (r: Result<
    DziPlan,
    InvalidGeometry,
>)
    ensures
        args.tile_size == 0 ==> r is Err && r->Err_0 == InvalidGeometry::ZeroExtent,
        args.tile_size > MAX_TILE_SIZE ==> r is Err && r->Err_0 == InvalidGeometry::TooLarge,
        0 < args.tile_size <= MAX_TILE_SIZE ==> ({
            &&& r matches Ok(plan)
            &&& plan.dimensions.cols == ceil_div(width as int, args.tile_size as int)
            &&& plan.dimensions.rows == ceil_div(height as int, args.tile_size as int)
            &&& is_zoom_level(height, width, args.tile_size, plan.dimensions.zoom_levels as nat)
            &&& plan.steps@ == layer_steps(plan.dimensions, args.layer_to_prepare)
        }),
{
    let dimensions = match dzi_dimensions(width, height, args.tile_size) {
        Ok(d) => d,
        Err(e) => {
            return Err(e);
        },
    };
    let steps = layer_plan(&dimensions, args.layer_to_prepare);
    Ok(DziPlan { dimensions, steps })
}

} // verus!
