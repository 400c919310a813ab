use wsi_raster::cli::{
    do_bitmask_mode, do_dzi_split_mode, plan_registration, BitmaskModeArgs, CheckedGeometry, Cli,
    Commands, DZISplitModeArgs,
};
use wsi_raster::color::{CollapseConfig, CollapseMode, Rgba8};
use wsi_raster::compositor::Images;
use wsi_raster::error::InvalidGeometry;
use wsi_raster::geometry::{BBox, ImageBBoxes, ImgSize};
use wsi_raster::pyramid::{DZIDimensions, LayerStep};
use wsi_raster::raster::Raster;

fn args(dry_run: bool) -> BitmaskModeArgs {
    BitmaskModeArgs {
        dry_run,
        red_channel_file_path: String::from("r.png"),
        green_channel_file_path: String::from("g.png"),
        blue_channel_file_path: String::from("b.png"),
        red_mode: CollapseMode::PassThrough,
        green_mode: CollapseMode::Bitmask,
        blue_mode: CollapseMode::Skip,
        red_bbox: vec![0, 0, 4, 4],
        green_bbox: vec![0, 0, 4, 4],
        blue_bbox: vec![0, 0, 4, 4],
        source_dim: vec![4, 4],
        output_file: String::from("out.png"),
    }
}

fn images() -> Images {
    let grey = |v: u8| Rgba8 { r: v, g: v, b: v, a: 255 };
    Images {
        red: Raster::new(4, 4, grey(50)).unwrap(),
        green: Raster::new(4, 4, grey(3)).unwrap(),
        blue: Raster::new(4, 4, grey(70)).unwrap(),
    }
}

#[test]
fn arguments_give_sources_and_config() {
    let a = args(false);
    let s = a.sources();
    assert_eq!((s.red.as_str(), s.green.as_str(), s.blue.as_str()), ("r.png", "g.png", "b.png"));
    assert_eq!(
        a.config(),
        CollapseConfig {
            red: CollapseMode::PassThrough,
            green: CollapseMode::Bitmask,
            blue: CollapseMode::Skip
        }
    );
    let whole = BBox { min_x: 0, min_y: 0, max_x: 4, max_y: 4 };
    assert_eq!(
        a.geometry(),
        Ok(CheckedGeometry {
            bboxes: ImageBBoxes { red: whole, green: whole, blue: whole },
            original: ImgSize(4, 4),
        })
    );
}

#[test]
fn first_malformed_argument_decides() {
    let mut a = args(false);
    a.green_bbox = vec![0, 0, 0, 4];
    a.blue_bbox = vec![1, 2, 3];
    assert_eq!(a.geometry(), Err(InvalidGeometry::ZeroExtent));
    a.red_bbox = vec![1];
    assert_eq!(a.geometry(), Err(InvalidGeometry::WrongCardinality));
    let mut a = args(false);
    a.source_dim = vec![4, 4, 4];
    assert_eq!(a.geometry(), Err(InvalidGeometry::WrongCardinality));
    assert_eq!(do_bitmask_mode(&a, images()).err(), Some(InvalidGeometry::WrongCardinality));
}

#[test]
fn dry_run_plans_without_compositing() {
    let out = do_bitmask_mode(&args(true), images()).unwrap();
    assert!(out.output.is_none());
    assert_eq!(out.plan.canvas_size, ImgSize(4, 4));
    assert!(!out.plan.red.resample);
}

#[test]
fn run_composites() {
    let out = do_bitmask_mode(&args(false), images()).unwrap();
    assert_eq!(out.plan.canvas_size, ImgSize(4, 4));
    let raster = out.output.unwrap();
    assert_eq!((raster.width(), raster.height()), (4, 4));
    assert_eq!(raster.to_pixels(), vec![Rgba8 { r: 50, g: 4, b: 0, a: 255 }; 16]);
}

#[test]
fn run_fails_on_an_empty_canvas() {
    let mut a = args(false);
    a.source_dim = vec![0, 4];
    assert_eq!(do_bitmask_mode(&a, images()).err(), Some(InvalidGeometry::ZeroTarget));
    a.dry_run = true;
    assert_eq!(do_bitmask_mode(&a, images()).err(), Some(InvalidGeometry::ZeroTarget));
}

#[test]
fn registration_is_planned_from_raster_sizes() {
    let g = args(false).geometry().unwrap();
    let plan = plan_registration(&g, ImgSize(4, 4), ImgSize(2, 2), ImgSize(1, 1)).unwrap();
    assert_eq!(plan.canvas_size, ImgSize(4, 4));
    assert!(!plan.red.resample);
    assert!(plan.green.resample && plan.blue.resample);
    assert_eq!(plan.green.position.target_size, ImgSize(4, 4));
    assert_eq!(
        plan_registration(&g, ImgSize(4, 4), ImgSize(0, 2), ImgSize(1, 1)),
        Err(InvalidGeometry::ZeroExtent)
    );
}

#[test]
fn tiling_mode_is_planned() {
    let a = DZISplitModeArgs {
        input_image: String::from("in.png"),
        output_file_stem: String::from("dzi"),
        output_folder: String::from("output"),
        tile_size: 256,
        layer_to_prepare: 0,
    };
    let plan = do_dzi_split_mode(&a, 2304, 640).unwrap();
    assert_eq!(plan.dimensions, DZIDimensions { cols: 9, rows: 3, zoom_levels: 4 });
    assert_eq!(plan.steps.len(), 5);
    assert_eq!(plan.steps[0], LayerStep::Finest { level: 4, cols: 9, rows: 3 });
    assert_eq!(plan.steps[4], LayerStep::Coarser { level: 0, source_cols: 2, source_rows: 1 });

    let one = DZISplitModeArgs { layer_to_prepare: 2, ..a };
    let plan = do_dzi_split_mode(&one, 2304, 640).unwrap();
    assert_eq!(plan.steps, vec![LayerStep::Coarser { level: 2, source_cols: 5, source_rows: 2 }]);

    let bad = DZISplitModeArgs { tile_size: 0, ..one };
    assert_eq!(do_dzi_split_mode(&bad, 2304, 640).err(), Some(InvalidGeometry::ZeroExtent));
    let bad = DZISplitModeArgs { tile_size: 40000, ..bad };
    assert_eq!(do_dzi_split_mode(&bad, 2304, 640).err(), Some(InvalidGeometry::TooLarge));
}

#[test]
fn command_line_holds_one_mode() {
    let cli = Cli { command: Commands::BitmaskMode(args(true)) };
    match cli.command {
        Commands::BitmaskMode(a) => assert!(a.dry_run),
        Commands::DZISplitMode(_) => unreachable!(),
    }
}
